//! The transition kernels.
//!
//! `next_cell_at_index_naive` is the scalar reference: one bounds check per
//! neighbor.  `next_cell_at_index` follows the gather design: it materializes
//! the three rows around the cell (an all-dead row standing in for a row off
//! the grid), packs them into one 24-cell lookup source, reads the eight
//! neighbors through a constant permutation table with out-of-range reads
//! yielding dead, and sums the lanes.  `lemma_kernels_agree` proves the two
//! designs return the same cell for every board and index.

use vstd::prelude::*;

use crate::grid::Conway;
use crate::model::cell_at;
use crate::model::is_board;
use crate::model::life_rule;
use crate::model::neighbor_count;
use crate::model::next_cell_spec;

verus! {

/// The three rows around row `row`, packed column by column: position
/// `3 * c + r` holds the cell of window row `r` (0 above, 1 middle, 2 below)
/// and board column `c`.  Off-grid rows contribute dead cells.
pub open spec fn window_of(b: Seq<u8>, row: int) -> Seq<u8> {
    Seq::new(24, |p: int| cell_at(b, row - 1 + p % 3, p / 3))
}

/// The constant permutation table: position, within the packed window, of
/// neighbor `k` (order NW, N, NE, W, E, SW, S, SE) of a cell in column 1.
pub open spec fn base_lut(k: int) -> int {
    if k == 0 {
        0
    } else if k == 1 {
        3
    } else if k == 2 {
        6
    } else if k == 3 {
        1
    } else if k == 4 {
        7
    } else if k == 5 {
        2
    } else if k == 6 {
        5
    } else {
        8
    }
}

/// Window position of neighbor `k` of a cell in column `c`: the table entry
/// shifted by three positions per column.  For a neighbor whose column is off
/// the grid the position leaves [0, 24), whatever its row.
pub open spec fn lane_pos(k: int, c: int) -> int {
    base_lut(k) + 3 * (c - 1)
}

/// What a gather lane reads: the window cell at `p`, or dead when `p` is
/// outside the window.
pub open spec fn gather_val(w: Seq<u8>, p: int) -> u8 {
    if 0 <= p < 24 {
        w[p]
    } else {
        0
    }
}

/// Sum of the eight gathered lanes for a cell in column `c`.
pub open spec fn gather_count(w: Seq<u8>, c: int) -> int {
    gather_val(w, lane_pos(0, c)) + gather_val(w, lane_pos(1, c)) + gather_val(
        w,
        lane_pos(2, c),
    ) + gather_val(w, lane_pos(3, c)) + gather_val(w, lane_pos(4, c)) + gather_val(
        w,
        lane_pos(5, c),
    ) + gather_val(w, lane_pos(6, c)) + gather_val(w, lane_pos(7, c))
}

/// Next state of cell `i` as the gather design computes it: the rule applied
/// to the lane sum over the packed window of the cell's three rows.
pub open spec fn next_cell_vec_spec(b: Seq<u8>, i: int) -> u8 {
    life_rule(b[i], gather_count(window_of(b, i / 8), i % 8))
}

/// The two kernel designs agree on every board and every valid index: each
/// gather lane reads exactly the bounds-checked neighbor value, so the lane
/// sum is the neighbor count and the rule sees the same inputs.
pub proof fn lemma_kernels_agree(b: Seq<u8>, i: int)
    requires
        is_board(b),
        0 <= i < 64,
    ensures
        next_cell_vec_spec(b, i) == next_cell_spec(b, i),
{
    let r = i / 8;
    let c = i % 8;
    let w = window_of(b, r);
    assert(gather_val(w, lane_pos(0, c)) == cell_at(b, r - 1, c - 1));
    assert(gather_val(w, lane_pos(1, c)) == cell_at(b, r - 1, c));
    assert(gather_val(w, lane_pos(2, c)) == cell_at(b, r - 1, c + 1));
    assert(gather_val(w, lane_pos(3, c)) == cell_at(b, r, c - 1));
    assert(gather_val(w, lane_pos(4, c)) == cell_at(b, r, c + 1));
    assert(gather_val(w, lane_pos(5, c)) == cell_at(b, r + 1, c - 1));
    assert(gather_val(w, lane_pos(6, c)) == cell_at(b, r + 1, c));
    assert(gather_val(w, lane_pos(7, c)) == cell_at(b, r + 1, c + 1));
    assert(gather_count(w, c) == neighbor_count(b, r, c));
    assert(b[i] == cell_at(b, r, c));
}

/// Bounds-checked read of the cell at row `r`, column `c`.
fn cell_value(board: &Vec<u8>, r: i64, c: i64) -> (v: u8)
    requires
        is_board(board@),
    ensures
        v == cell_at(board@, r as int, c as int),
        v <= 1,
{
    if 0 <= r && r < 8 && 0 <= c && c < 8 {
        board[(r * 8 + c) as usize]
    } else {
        0
    }
}

/// The Life rule on a cell value and its live-neighbor count.
fn apply_rule(cur: u8, n: u8) -> (r: u8)
    ensures
        r == life_rule(cur, n as int),
{
    if (cur == 1 && (n == 2 || n == 3)) || (cur == 0 && n == 3) {
        1
    } else {
        0
    }
}

/// Board row `r` as a width-sized window, or an all-dead window when `r` is
/// off the grid.
fn row_window(board: &Vec<u8>, r: i64) -> (w: Vec<u8>)
    requires
        is_board(board@),
    ensures
        w@.len() == 8,
        forall|j: int| 0 <= j < 8 ==> w@[j] == cell_at(board@, r as int, j),
{
    let mut w: Vec<u8> = Vec::new();
    let mut j: usize = 0;
    while j < 8
        invariant
            is_board(board@),
            j <= 8,
            w@.len() == j,
            forall|q: int| 0 <= q < j ==> w@[q] == cell_at(board@, r as int, q),
        decreases 8 - j,
    {
        let v = cell_value(board, r, j as i64);
        w.push(v);
        j += 1;
    }
    w
}

/// Pack the three row windows into the 24-cell lookup source, column by
/// column: window row above, middle, below for column 0, then column 1, ...
fn pack_window(top: &Vec<u8>, mid: &Vec<u8>, bot: &Vec<u8>) -> (w: Vec<u8>)
    requires
        top@.len() == 8,
        mid@.len() == 8,
        bot@.len() == 8,
    ensures
        w@.len() == 24,
        forall|p: int|
            0 <= p < 24 ==> w@[p] == (if p % 3 == 0 {
                top@[p / 3]
            } else if p % 3 == 1 {
                mid@[p / 3]
            } else {
                bot@[p / 3]
            }),
{
    let mut w: Vec<u8> = Vec::new();
    let mut c: usize = 0;
    while c < 8
        invariant
            top@.len() == 8,
            mid@.len() == 8,
            bot@.len() == 8,
            c <= 8,
            w@.len() == 3 * c,
            forall|p: int|
                0 <= p < 3 * c ==> w@[p] == (if p % 3 == 0 {
                    top@[p / 3]
                } else if p % 3 == 1 {
                    mid@[p / 3]
                } else {
                    bot@[p / 3]
                }),
        decreases 8 - c,
    {
        w.push(top[c]);
        w.push(mid[c]);
        w.push(bot[c]);
        c += 1;
    }
    w
}

/// One gather lane: the window cell at position `p`, or dead when `p` falls
/// outside the 24-cell source.
fn gather_lane(w: &Vec<u8>, p: i64) -> (v: u8)
    requires
        w@.len() == 24,
        forall|q: int| 0 <= q < 24 ==> w@[q] <= 1,
    ensures
        v == gather_val(w@, p as int),
        v <= 1,
{
    if 0 <= p && p < 24 {
        w[p as usize]
    } else {
        0
    }
}

impl Conway {
    /// Scalar reference kernel: next state of the cell at flat `index`, each
    /// of the eight neighbors read through its own bounds check.
    pub fn next_cell_at_index_naive(board: &Vec<u8>, index: usize) -> (r: u8)
        requires
            is_board(board@),
            index < 64,
        ensures
            r == next_cell_spec(board@, index as int),
    {
        let row: i64 = (index / 8) as i64;
        let col: i64 = (index % 8) as i64;
        let n0 = cell_value(board, row - 1, col - 1);
        let n1 = cell_value(board, row - 1, col);
        let n2 = cell_value(board, row - 1, col + 1);
        let n3 = cell_value(board, row, col - 1);
        let n4 = cell_value(board, row, col + 1);
        let n5 = cell_value(board, row + 1, col - 1);
        let n6 = cell_value(board, row + 1, col);
        let n7 = cell_value(board, row + 1, col + 1);
        let count: u8 = n0 + n1 + n2 + n3 + n4 + n5 + n6 + n7;
        let cur = board[index];
        apply_rule(cur, count)
    }

    /// Gather kernel: same contract as the scalar reference.  The cell's
    /// three rows are materialized (all-dead rows standing in for rows off
    /// the grid), packed into a 24-cell source, and the eight neighbors are
    /// read through the constant permutation table, out-of-range reads
    /// yielding dead; the lanes are then summed and the rule applied.
    pub fn next_cell_at_index(board: &Vec<u8>, index: usize) -> (r: u8)
        requires
            is_board(board@),
            index < 64,
        ensures
            r == next_cell_spec(board@, index as int),
            r == next_cell_vec_spec(board@, index as int),
    {
        let row: i64 = (index / 8) as i64;
        let col: i64 = (index % 8) as i64;
        let top = row_window(board, row - 1);
        let mid = row_window(board, row);
        let bot = row_window(board, row + 1);
        let w = pack_window(&top, &mid, &bot);
        proof {
            assert(w@ =~= window_of(board@, row as int));
            assert forall|q: int| 0 <= q < 24 implies w@[q] <= 1 by {
                assert(w@[q] == cell_at(board@, row as int - 1 + q % 3, q / 3));
            }
        }
        let base: i64 = 3 * col - 3;
        let l0 = gather_lane(&w, base);
        let l1 = gather_lane(&w, base + 3);
        let l2 = gather_lane(&w, base + 6);
        let l3 = gather_lane(&w, base + 1);
        let l4 = gather_lane(&w, base + 7);
        let l5 = gather_lane(&w, base + 2);
        let l6 = gather_lane(&w, base + 5);
        let l7 = gather_lane(&w, base + 8);
        let count: u8 = l0 + l1 + l2 + l3 + l4 + l5 + l6 + l7;
        let cur = board[index];
        proof {
            lemma_kernels_agree(board@, index as int);
        }
        apply_rule(cur, count)
    }
}

} // verus!
