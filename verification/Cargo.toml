[package]
name = "conway_asm_fun"
version = "0.1.0"
edition = "2021"
publish = false

[dependencies]
rand = "*"
