//! The grid store: two fixed-length generation buffers and a flag naming the
//! one that is current.  Advancing a generation writes the inactive buffer
//! from the active one and then flips the flag, so the buffer just read is
//! published whole and the buffer just published is left untouched.

use vstd::prelude::*;

use crate::model::dead_board;
use crate::model::is_board;
use crate::model::next_cell_spec;
use crate::model::seed_board;
use crate::model::step_spec;

verus! {

/// Glyph a cell is rendered as: 'X' live, '_' dead.
pub open spec fn glyph(v: u8) -> char {
    if v == 1 {
        'X'
    } else {
        '_'
    }
}

/// The character grid a board is rendered as: eight rows of eight glyphs,
/// each row ended by a newline, 72 characters in all.
pub open spec fn render_spec(b: Seq<u8>) -> Seq<char> {
    Seq::new(72, |k: int| if k % 9 == 8 {
        '\n'
    } else {
        glyph(b[(k / 9) * 8 + k % 9])
    })
}

/// Double-buffered Life board: two generation buffers and the flag that
/// selects the current one.
pub struct Conway {
    pub board_1: Vec<u8>,
    pub board_2: Vec<u8>,
    pub is_first_board_active: bool,
}

impl Conway {
    /// Width of the square board, in cells.
    pub const BOARD_WIDTH: usize = 8;

    /// Number of cells on the board.
    pub const BOARD_SIZE: usize = 64;

    /// Both buffers are well-formed boards.
    pub open spec fn wf(self) -> bool {
        is_board(self.board_1@) && is_board(self.board_2@)
    }

    /// The buffer the flag marks as current: the one readers see.
    pub open spec fn current_view(self) -> Seq<u8> {
        if self.is_first_board_active {
            self.board_1@
        } else {
            self.board_2@
        }
    }

    /// The buffer the flag marks as inactive: the one the next advance writes.
    pub open spec fn inactive_view(self) -> Seq<u8> {
        if self.is_first_board_active {
            self.board_2@
        } else {
            self.board_1@
        }
    }

    /// Build a store from a seed: the first buffer holds the seeded board,
    /// the second is all dead, and the first is current.
    pub fn new(seed: Vec<bool>) -> (c: Conway)
        requires
            seed@.len() == 64,
        ensures
            c.wf(),
            c.is_first_board_active,
            c.current_view() == seed_board(seed@),
            c.inactive_view() == dead_board(),
    {
        let mut board_1: Vec<u8> = Vec::new();
        let mut i: usize = 0;
        while i < 64
            invariant
                seed@.len() == 64,
                i <= 64,
                board_1@.len() == i,
                forall|j: int| 0 <= j < i ==> board_1@[j] == seed_board(seed@)[j],
            decreases 64 - i,
        {
            board_1.push(if seed[i] { 1 } else { 0 });
            i += 1;
        }
        let mut board_2: Vec<u8> = Vec::new();
        let mut k: usize = 0;
        while k < 64
            invariant
                k <= 64,
                board_2@.len() == k,
                forall|j: int| 0 <= j < k ==> board_2@[j] == 0u8,
            decreases 64 - k,
        {
            board_2.push(0);
            k += 1;
        }
        proof {
            assert(board_1@ =~= seed_board(seed@));
            assert(board_2@ =~= dead_board());
        }
        Conway { board_1, board_2, is_first_board_active: true }
    }

    /// Read-only view of the current buffer.
    pub fn current(&self) -> (r: &Vec<u8>)
        ensures
            r@ == self.current_view(),
    {
        if self.is_first_board_active {
            &self.board_1
        } else {
            &self.board_2
        }
    }

    /// Advance one generation: every cell of the inactive buffer is computed
    /// from the current one by the kernel, then the roles flip.  The buffer
    /// that was current is published unchanged as the new inactive buffer,
    /// so the generation just read is never written mid-step.
    pub fn next(&mut self)
        requires
            old(self).wf(),
        ensures
            final(self).wf(),
            final(self).is_first_board_active == !old(self).is_first_board_active,
            final(self).current_view() == step_spec(old(self).current_view()),
            final(self).inactive_view() == old(self).current_view(),
    {
        if self.is_first_board_active {
            step_into(&self.board_1, &mut self.board_2);
            self.is_first_board_active = false;
        } else {
            step_into(&self.board_2, &mut self.board_1);
            self.is_first_board_active = true;
        }
    }

    /// The current buffer as a character grid, one row per line.
    pub fn render(&self) -> (s: String)
        requires
            self.wf(),
        ensures
            s@ == render_spec(self.current_view()),
    {
        let board = if self.is_first_board_active {
            &self.board_1
        } else {
            &self.board_2
        };
        let mut out = String::new();
        let mut r: usize = 0;
        while r < 8
            invariant
                board@ == self.current_view(),
                is_board(board@),
                r <= 8,
                out@.len() == 9 * r,
                forall|k: int| 0 <= k < 9 * r ==> out@[k] == render_spec(board@)[k],
            decreases 8 - r,
        {
            let mut c: usize = 0;
            while c < 8
                invariant
                    board@ == self.current_view(),
                    is_board(board@),
                    r < 8,
                    c <= 8,
                    out@.len() == 9 * r + c,
                    forall|k: int| 0 <= k < 9 * r + c ==> out@[k] == render_spec(board@)[k],
                decreases 8 - c,
            {
                let cell = board[r * 8 + c];
                let g: &str = if cell == 1 {
                    "X"
                } else {
                    "_"
                };
                proof {
                    reveal_strlit("X");
                    reveal_strlit("_");
                    assert(g@.len() == 1 && g@[0] == glyph(board@[r * 8 + c]));
                }
                out.append(g);
                c += 1;
            }
            proof {
                reveal_strlit("\n");
            }
            out.append("\n");
            r += 1;
        }
        proof {
            assert(out@ =~= render_spec(board@));
        }
        out
    }
}

/// Write one full generation into `dst`: cell by cell, `dst` gets the kernel
/// of `src`, which is only read.
fn step_into(src: &Vec<u8>, dst: &mut Vec<u8>)
    requires
        is_board(src@),
        old(dst)@.len() == 64,
    ensures
        final(dst)@ == step_spec(src@),
        is_board(final(dst)@),
{
    let mut i: usize = 0;
    while i < 64
        invariant
            is_board(src@),
            dst@.len() == 64,
            i <= 64,
            forall|j: int| 0 <= j < i ==> dst@[j] == next_cell_spec(src@, j),
        decreases 64 - i,
    {
        let v = Conway::next_cell_at_index(src, i);
        dst.set(i, v);
        i += 1;
    }
    proof {
        assert(dst@ =~= step_spec(src@));
    }
}

} // verus!
