//! A model of the off-screen drawing surface: a grid of character cells,
//! each with a glyph, a foreground color and a background color, plus the
//! surface's current default colors. The display capability only ever sees
//! finished buffers; everything that decides what a cell shows is here.

use vstd::prelude::*;
use crate::color;
use crate::color::Rgb;

verus! {

/// One character cell of a drawing surface.
#[derive(Clone, Copy, Debug, PartialEq, Eq, Structural)]
pub struct Cell {
    pub glyph: char,
    pub fg: Rgb,
    pub bg: Rgb,
}

/// What every cell becomes when the surface is cleared with the given
/// default colors: a space in those colors.
pub open spec fn cleared_cell(fg: Rgb, bg: Rgb) -> Cell {
    Cell { glyph: ' ', fg, bg }
}

/// An off-screen drawing surface. `cells[x][y]` is the cell at column `x`,
/// row `y`.
pub struct Offscreen {
    pub width: i32,
    pub height: i32,
    pub default_fg: Rgb,
    pub default_bg: Rgb,
    pub cells: Vec<Vec<Cell>>,
}

impl Offscreen {
    /// The grid really is `width` columns of `height` cells each.
    pub open spec fn wf(self) -> bool {
        &&& 0 <= self.width
        &&& 0 <= self.height
        &&& self.cells@.len() == self.width as int
        &&& forall|x: int|
            0 <= x < self.width ==> (#[trigger] self.cells@[x])@.len() == self.height as int
    }

    pub open spec fn in_bounds(self, x: int, y: int) -> bool {
        0 <= x < self.width && 0 <= y < self.height
    }

    pub open spec fn spec_cell(self, x: int, y: int) -> Cell {
        self.cells@[x]@[y]
    }

    /// A fresh surface: white default foreground on a black default
    /// background, every cell cleared to those colors.
    pub fn new(width: i32, height: i32) -> (con: Offscreen)
        requires
            0 <= width,
            0 <= height,
        ensures
            con.wf(),
            con.width == width,
            con.height == height,
            con.default_fg == color::spec_white(),
            con.default_bg == color::spec_black(),
            forall|x: int, y: int|
                con.in_bounds(x, y) ==> #[trigger] con.spec_cell(x, y) == cleared_cell(
                    color::spec_white(),
                    color::spec_black(),
                ),
    {
        let fg = color::white();
        let bg = color::black();
        let cells = filled_cells(width, height, Cell { glyph: ' ', fg, bg });
        Offscreen { width, height, default_fg: fg, default_bg: bg, cells }
    }

    /// Reset every cell to a space in the current default colors.
    pub fn clear(&mut self)
        requires
            old(self).wf(),
        ensures
            final(self).wf(),
            final(self).width == old(self).width,
            final(self).height == old(self).height,
            final(self).default_fg == old(self).default_fg,
            final(self).default_bg == old(self).default_bg,
            forall|x: int, y: int|
                final(self).in_bounds(x, y) ==> #[trigger] final(self).spec_cell(x, y)
                    == cleared_cell(old(self).default_fg, old(self).default_bg),
    {
        let blank = Cell { glyph: ' ', fg: self.default_fg, bg: self.default_bg };
        self.cells = filled_cells(self.width, self.height, blank);
    }

    /// Set the default foreground color used by later glyph writes.
    pub fn set_default_foreground(&mut self, c: Rgb)
        ensures
            final(self).width == old(self).width,
            final(self).height == old(self).height,
            final(self).default_fg == c,
            final(self).default_bg == old(self).default_bg,
            final(self).cells == old(self).cells,
    {
        self.default_fg = c;
    }

    /// Write `glyph` at `(x, y)` in the default foreground color, leaving
    /// the cell's background untouched.
    pub fn put_char(&mut self, x: i32, y: i32, glyph: char)
        requires
            old(self).wf(),
            old(self).in_bounds(x as int, y as int),
        ensures
            final(self).wf(),
            final(self).width == old(self).width,
            final(self).height == old(self).height,
            final(self).default_fg == old(self).default_fg,
            final(self).default_bg == old(self).default_bg,
            final(self).spec_cell(x as int, y as int) == (Cell {
                glyph,
                fg: old(self).default_fg,
                bg: old(self).spec_cell(x as int, y as int).bg,
            }),
            forall|i: int, j: int|
                old(self).in_bounds(i, j) && !(i == x as int && j == y as int)
                    ==> #[trigger] final(self).spec_cell(i, j) == old(self).spec_cell(i, j),
    {
        let bg = self.cells[x as usize][y as usize].bg;
        self.cells[x as usize][y as usize] = Cell { glyph, fg: self.default_fg, bg };
    }

    /// Write a whole cell at `(x, y)`: glyph, foreground and background
    /// together, independent of the default colors.
    pub fn put_char_ex(&mut self, x: i32, y: i32, glyph: char, fg: Rgb, bg: Rgb)
        requires
            old(self).wf(),
            old(self).in_bounds(x as int, y as int),
        ensures
            final(self).wf(),
            final(self).width == old(self).width,
            final(self).height == old(self).height,
            final(self).default_fg == old(self).default_fg,
            final(self).default_bg == old(self).default_bg,
            final(self).spec_cell(x as int, y as int) == (Cell { glyph, fg, bg }),
            forall|i: int, j: int|
                old(self).in_bounds(i, j) && !(i == x as int && j == y as int)
                    ==> #[trigger] final(self).spec_cell(i, j) == old(self).spec_cell(i, j),
    {
        self.cells[x as usize][y as usize] = Cell { glyph, fg, bg };
    }

    /// Paint the background of the cell at `(x, y)`, leaving its glyph and
    /// foreground untouched.
    pub fn set_char_background(&mut self, x: i32, y: i32, c: Rgb)
        requires
            old(self).wf(),
            old(self).in_bounds(x as int, y as int),
        ensures
            final(self).wf(),
            final(self).width == old(self).width,
            final(self).height == old(self).height,
            final(self).default_fg == old(self).default_fg,
            final(self).default_bg == old(self).default_bg,
            final(self).spec_cell(x as int, y as int) == (Cell {
                glyph: old(self).spec_cell(x as int, y as int).glyph,
                fg: old(self).spec_cell(x as int, y as int).fg,
                bg: c,
            }),
            forall|i: int, j: int|
                old(self).in_bounds(i, j) && !(i == x as int && j == y as int)
                    ==> #[trigger] final(self).spec_cell(i, j) == old(self).spec_cell(i, j),
    {
        let cell = self.cells[x as usize][y as usize];
        self.cells[x as usize][y as usize] = Cell { glyph: cell.glyph, fg: cell.fg, bg: c };
    }
}

/// A `width` by `height` grid with every cell equal to `cell`.
#[verifier::loop_isolation(false)]
fn filled_cells(width: i32, height: i32, cell: Cell) -> (v: Vec<Vec<Cell>>)
    requires
        0 <= width,
        0 <= height,
    ensures
        v@.len() == width as int,
        forall|x: int| 0 <= x < width ==> (#[trigger] v@[x])@.len() == height as int,
        forall|x: int, y: int|
            0 <= x < width && 0 <= y < height ==> #[trigger] v@[x]@[y] == cell,
{
    let mut v: Vec<Vec<Cell>> = Vec::new();
    let mut x: i32 = 0;
    while x < width
        invariant
            0 <= x <= width,
            v@.len() == x as int,
            forall|i: int| 0 <= i < x ==> (#[trigger] v@[i])@.len() == height as int,
            forall|i: int, j: int| 0 <= i < x && 0 <= j < height ==> #[trigger] v@[i]@[j] == cell,
        decreases width - x,
    {
        let mut column: Vec<Cell> = Vec::new();
        let mut y: i32 = 0;
        while y < height
            invariant
                0 <= y <= height,
                column@.len() == y as int,
                forall|j: int| 0 <= j < y ==> #[trigger] column@[j] == cell,
            decreases height - y,
        {
            column.push(cell);
            y = y + 1;
        }
        v.push(column);
        x = x + 1;
    }
    v
}

} // verus!
