//! Mathematical model of the automaton: what a board is, what a cell's
//! neighborhood holds, and what the transition rule returns.

use vstd::prelude::*;

verus! {

/// A board is a flat row-major sequence of 64 cells, each 0 (dead) or 1 (live).
pub open spec fn is_board(b: Seq<u8>) -> bool {
    &&& b.len() == 64
    &&& forall|i: int| 0 <= i < 64 ==> b[i] == 0 || b[i] == 1
}

/// The cell at row `r`, column `c`, with every out-of-bounds position dead.
/// Clamping here is what makes the boundary dead rather than wrapping.
pub open spec fn cell_at(b: Seq<u8>, r: int, c: int) -> u8 {
    if 0 <= r < 8 && 0 <= c < 8 {
        b[r * 8 + c]
    } else {
        0
    }
}

/// Number of live cells among the eight neighbors of (r, c), counting only
/// in-bounds positions.  Order: NW, N, NE, W, E, SW, S, SE.
pub open spec fn neighbor_count(b: Seq<u8>, r: int, c: int) -> int {
    cell_at(b, r - 1, c - 1) + cell_at(b, r - 1, c) + cell_at(b, r - 1, c + 1)
        + cell_at(b, r, c - 1) + cell_at(b, r, c + 1) + cell_at(b, r + 1, c - 1)
        + cell_at(b, r + 1, c) + cell_at(b, r + 1, c + 1)
}

/// The standard Life rule: a live cell with 2 or 3 live neighbors survives,
/// a dead cell with exactly 3 live neighbors is born, every other cell dies.
pub open spec fn life_rule(cur: u8, n: int) -> u8 {
    if (cur == 1 && (n == 2 || n == 3)) || (cur == 0 && n == 3) {
        1u8
    } else {
        0u8
    }
}

/// Next state of the cell at flat index `i`: the rule applied to the cell and
/// its bounds-checked neighbor count.  This is the scalar reference model.
pub open spec fn next_cell_spec(b: Seq<u8>, i: int) -> u8 {
    life_rule(b[i], neighbor_count(b, i / 8, i % 8))
}

/// One full generation step: every cell advanced by the rule.
pub open spec fn step_spec(b: Seq<u8>) -> Seq<u8> {
    Seq::new(64, |i: int| next_cell_spec(b, i))
}

/// The board a seed of per-cell booleans denotes: true is live, false dead.
pub open spec fn seed_board(s: Seq<bool>) -> Seq<u8> {
    Seq::new(64, |i: int| if s[i] { 1u8 } else { 0u8 })
}

/// The all-dead board.
pub open spec fn dead_board() -> Seq<u8> {
    Seq::new(64, |i: int| 0u8)
}

} // verus!
