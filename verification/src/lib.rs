//! Conway's Game of Life on a fixed-width square grid, with a scalar
//! reference kernel and a gather-style kernel proved equivalent to it,
//! plus a double-buffered grid store.

mod grid;
mod kernel;
mod laws;
mod model;

pub use grid::glyph;
pub use grid::render_spec;
pub use grid::Conway;
pub use kernel::base_lut;
pub use kernel::gather_count;
pub use kernel::gather_val;
pub use kernel::lane_pos;
pub use kernel::lemma_kernels_agree;
pub use kernel::next_cell_vec_spec;
pub use kernel::window_of;
pub use laws::lemma_birth;
pub use laws::lemma_boundary_deadness;
pub use laws::lemma_overpopulation;
pub use laws::lemma_survival;
pub use laws::lemma_underpopulation;
pub use laws::on_boundary;
pub use model::cell_at;
pub use model::dead_board;
pub use model::is_board;
pub use model::life_rule;
pub use model::neighbor_count;
pub use model::next_cell_spec;
pub use model::seed_board;
pub use model::step_spec;
