//! The difference between the frame on display and the next one, as the
//! list of cells to write.

use vstd::prelude::*;

use crate::frame::{Frame, NUM_CELLS};
use crate::NUM_ROWS;

verus! {

/// Write `glyph` at column `x`, row `y`.
#[derive(Clone, Copy, Debug, PartialEq, Eq)]
pub struct CellUpdate {
    pub x: usize,
    pub y: usize,
    pub glyph: char,
}

/// The write that brings cell `i` of a frame to its glyph in `next`.
pub open spec fn update_of(next: Seq<char>, i: int) -> CellUpdate {
    CellUpdate { x: (i / NUM_ROWS as int) as usize, y: (i % NUM_ROWS as int) as usize, glyph: next[i] }
}

/// Whether cell `i` is to be written.
pub open spec fn needs_write(last: Seq<char>, next: Seq<char>, force: bool, i: int) -> bool {
    force || last[i] != next[i]
}

/// The writes for the first `n` cells, in cell order.
pub open spec fn writes_upto(last: Seq<char>, next: Seq<char>, force: bool, n: int) -> Seq<CellUpdate>
    decreases n,
{
    if n <= 0 {
        Seq::empty()
    } else {
        let before = writes_upto(last, next, force, n - 1);
        if needs_write(last, next, force, n - 1) {
            before.push(update_of(next, n - 1))
        } else {
            before
        }
    }
}

/// The writes that turn the display from `last` into `next`: every cell
/// whose glyph differs, or every cell when `force` is set, column after
/// column.
pub fn frame_diff(last: &Frame, next: &Frame, force: bool) -> (r: Vec<CellUpdate>)
    requires
        last.wf(),
        next.wf(),
    ensures
        r@ == writes_upto(last@, next@, force, NUM_CELLS as int),
{
    let mut out: Vec<CellUpdate> = Vec::new();
    let mut i: usize = 0;
    while i < NUM_CELLS
        invariant
            i <= NUM_CELLS,
            last.wf(),
            next.wf(),
            out@ == writes_upto(last@, next@, force, i as int),
        decreases NUM_CELLS - i,
    {
        let g = next.cells[i];
        if force || last.cells[i] != g {
            out.push(CellUpdate { x: i / NUM_ROWS, y: i % NUM_ROWS, glyph: g });
        }
        i += 1;
    }
    out
}

/// A write is among those for the first `n` cells exactly when it is the
/// write of a cell below `n` that needs one.
pub proof fn lemma_writes_upto_members(last: Seq<char>, next: Seq<char>, force: bool, n: int)
    requires
        0 <= n <= last.len(),
        last.len() == next.len(),
    ensures
        forall|u: CellUpdate| writes_upto(last, next, force, n).contains(u)
            <==> exists|i: int| 0 <= i < n && needs_write(last, next, force, i) && u == update_of(next, i),
    decreases n,
{
    if n > 0 {
        lemma_writes_upto_members(last, next, force, n - 1);
        let before = writes_upto(last, next, force, n - 1);
        let after = writes_upto(last, next, force, n);
        assert forall|u: CellUpdate| after.contains(u)
            <==> exists|i: int| 0 <= i < n && needs_write(last, next, force, i) && u == update_of(next, i) by {
            if needs_write(last, next, force, n - 1) {
                assert(after == before.push(update_of(next, n - 1)));
                if after.contains(u) {
                    let k = choose|k: int| 0 <= k < after.len() && after[k] == u;
                    if k < before.len() {
                        assert(before[k] == u);
                        assert(before.contains(u));
                    } else {
                        assert(u == update_of(next, n - 1));
                    }
                }
                if exists|i: int| 0 <= i < n && needs_write(last, next, force, i) && u == update_of(next, i) {
                    let i = choose|i: int| 0 <= i < n && needs_write(last, next, force, i) && u == update_of(next, i);
                    if i < n - 1 {
                        assert(before.contains(u));
                        let k = choose|k: int| 0 <= k < before.len() && before[k] == u;
                        assert(after[k] == u);
                    } else {
                        assert(after[before.len() as int] == u);
                    }
                }
            } else {
                assert(after == before);
                if exists|i: int| 0 <= i < n && needs_write(last, next, force, i) && u == update_of(next, i) {
                    let i = choose|i: int| 0 <= i < n && needs_write(last, next, force, i) && u == update_of(next, i);
                    assert(i < n - 1);
                }
            }
        }
    }
}

/// With nothing forced, the cells written are exactly the cells where the
/// two frames differ; a frame drawn over itself gives no writes; a forced
/// redraw writes every cell.
pub proof fn lemma_diff_is_exact(last: Seq<char>, next: Seq<char>)
    requires
        last.len() == NUM_CELLS,
        next.len() == NUM_CELLS,
    ensures
        forall|u: CellUpdate| writes_upto(last, next, false, NUM_CELLS as int).contains(u)
            <==> exists|i: int| 0 <= i < NUM_CELLS && last[i] != next[i] && u == update_of(next, i),
        last == next ==> writes_upto(last, next, false, NUM_CELLS as int).len() == 0,
        writes_upto(last, next, true, NUM_CELLS as int).len() == NUM_CELLS,
{
    lemma_writes_upto_members(last, next, false, NUM_CELLS as int);
    if last == next {
        lemma_no_writes_for_equal(last, next, NUM_CELLS as int);
    }
    lemma_forced_writes_all(last, next, NUM_CELLS as int);
}

proof fn lemma_no_writes_for_equal(last: Seq<char>, next: Seq<char>, n: int)
    requires
        last == next,
    ensures
        writes_upto(last, next, false, n).len() == 0,
    decreases n,
{
    if n > 0 {
        lemma_no_writes_for_equal(last, next, n - 1);
    }
}

proof fn lemma_forced_writes_all(last: Seq<char>, next: Seq<char>, n: int)
    requires
        n >= 0,
    ensures
        writes_upto(last, next, true, n).len() == n,
    decreases n,
{
    if n > 0 {
        lemma_forced_writes_all(last, next, n - 1);
    }
}

} // verus!
