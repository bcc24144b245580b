//! One snapshot of the playing grid: a glyph in every cell, and the ability
//! of an entity to paint itself into it.

use vstd::prelude::*;

use crate::{NUM_COLS, NUM_ROWS};

verus! {

/// Number of cells in a frame.
pub const NUM_CELLS: usize = NUM_COLS * NUM_ROWS;

/// Glyph of an empty cell.
pub const BLANK: char = ' ';

/// The position of cell `(x, y)` in the column-major order of a frame.
pub open spec fn cell_index(x: int, y: int) -> int {
    x * NUM_ROWS + y
}

pub open spec fn on_grid(x: int, y: int) -> bool {
    0 <= x < NUM_COLS && 0 <= y < NUM_ROWS
}

/// The cells `f` with cell `(x, y)` set to `g`; a position off the grid leaves
/// them as they are.
pub open spec fn put_cell(f: Seq<char>, x: int, y: int, g: char) -> Seq<char> {
    if on_grid(x, y) {
        f.update(cell_index(x, y), g)
    } else {
        f
    }
}

/// The cells of a frame, column after column (`x` outer, `y` inner).
pub struct Frame {
    pub cells: Vec<char>,
}

impl View for Frame {
    type V = Seq<char>;

    open spec fn view(&self) -> Seq<char> {
        self.cells@
    }
}

impl Frame {
    pub open spec fn wf(&self) -> bool {
        self@.len() == NUM_CELLS
    }

    /// The glyph at `(x, y)`.
    pub fn cell(&self, x: usize, y: usize) -> (r: char)
        requires
            self.wf(),
            on_grid(x as int, y as int),
        ensures
            r == self@[cell_index(x as int, y as int)],
    {
        proof { lemma_cell_index_in_range(x as int, y as int); }
        self.cells[x * NUM_ROWS + y]
    }

    /// Sets the glyph at `(x, y)`; a position off the grid is ignored.
    pub fn set_cell(&mut self, x: usize, y: usize, g: char)
        requires
            old(self).wf(),
        ensures
            final(self).wf(),
            final(self)@ == put_cell(old(self)@, x as int, y as int, g),
    {
        if x < NUM_COLS && y < NUM_ROWS {
            proof { lemma_cell_index_in_range(x as int, y as int); }
            self.cells.set(x * NUM_ROWS + y, g);
        }
    }
}

/// A cell on the grid has an index inside the frame.
pub proof fn lemma_cell_index_in_range(x: int, y: int)
    requires
        on_grid(x, y),
    ensures
        0 <= cell_index(x, y) < NUM_CELLS,
{
    assert(x * NUM_ROWS <= (NUM_COLS - 1) * NUM_ROWS) by (nonlinear_arith)
        requires 0 <= x < NUM_COLS;
}

/// The cells of a frame with nothing drawn in it.
pub open spec fn blank_cells() -> Seq<char> {
    Seq::new(NUM_CELLS as nat, |i: int| BLANK)
}

/// A frame with every cell blank.
pub fn new_frame() -> (r: Frame)
    ensures
        r.wf(),
        r@ == blank_cells(),
{
    let mut cells: Vec<char> = Vec::new();
    let mut i: usize = 0;
    while i < NUM_CELLS
        invariant
            i <= NUM_CELLS,
            cells@.len() == i,
            forall|j: int| 0 <= j < i ==> cells@[j] == BLANK,
        decreases NUM_CELLS - i,
    {
        cells.push(BLANK);
        i += 1;
    }
    assert(cells@ =~= blank_cells());
    Frame { cells }
}

/// Something that paints itself into a frame.
pub trait Drawable {
    /// The cells after painting `self` into cells `f`.
    spec fn drawn(&self, f: Seq<char>) -> Seq<char>;

    fn draw(&self, frame: &mut Frame)
        requires
            old(frame).wf(),
        ensures
            final(frame).wf(),
            final(frame)@ == self.drawn(old(frame)@),
    ;
}

} // verus!
