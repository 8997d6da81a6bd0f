//! The rule's behavior, stated board-wide: how a cell fares for each band of
//! neighbor counts, on the interior and on the boundary alike.

use vstd::prelude::*;

use crate::model::is_board;
use crate::model::neighbor_count;
use crate::model::next_cell_spec;

verus! {

/// Whether flat index `i` lies on the grid's edge or corner.
pub open spec fn on_boundary(i: int) -> bool {
    i / 8 == 0 || i / 8 == 7 || i % 8 == 0 || i % 8 == 7
}

/// Boundary deadness: a live cell on the edge or corner with zero live
/// neighbors always dies.  The neighbor count sums `cell_at`, which holds
/// every out-of-bounds position dead, so positions beyond the boundary never
/// wrap around to cells on the far side of the grid.
pub proof fn lemma_boundary_deadness(b: Seq<u8>, i: int)
    requires
        is_board(b),
        0 <= i < 64,
        on_boundary(i),
        b[i] == 1,
        neighbor_count(b, i / 8, i % 8) == 0,
    ensures
        next_cell_spec(b, i) == 0,
{
}

/// Underpopulation: a solitary live cell, one with no live neighbors,
/// transitions to dead.
pub proof fn lemma_underpopulation(b: Seq<u8>, i: int)
    requires
        is_board(b),
        0 <= i < 64,
        b[i] == 1,
        neighbor_count(b, i / 8, i % 8) == 0,
    ensures
        next_cell_spec(b, i) == 0,
{
}

/// Survival: a live cell with exactly 2 or 3 live neighbors stays live.
pub proof fn lemma_survival(b: Seq<u8>, i: int)
    requires
        is_board(b),
        0 <= i < 64,
        b[i] == 1,
        neighbor_count(b, i / 8, i % 8) == 2 || neighbor_count(b, i / 8, i % 8) == 3,
    ensures
        next_cell_spec(b, i) == 1,
{
}

/// Birth: a dead cell with exactly 3 live neighbors becomes live.
pub proof fn lemma_birth(b: Seq<u8>, i: int)
    requires
        is_board(b),
        0 <= i < 64,
        b[i] == 0,
        neighbor_count(b, i / 8, i % 8) == 3,
    ensures
        next_cell_spec(b, i) == 1,
{
}

/// Overpopulation: a live cell with four or more live neighbors dies.
pub proof fn lemma_overpopulation(b: Seq<u8>, i: int)
    requires
        is_board(b),
        0 <= i < 64,
        b[i] == 1,
        neighbor_count(b, i / 8, i % 8) >= 4,
    ensures
        next_cell_spec(b, i) == 0,
{
}

} // verus!
