//! Positions and extents on the screen grid.
use vstd::prelude::*;

verus! {

/// The extent of the terminal or of a region of it: (rows, columns).
#[derive(Clone, Copy, Debug, PartialEq, Eq, Structural)]
pub struct Size(pub u16, pub u16);

/// One addressable position on the grid: (row, column).
#[derive(Clone, Copy, Debug, PartialEq, Eq, Structural)]
pub struct Cell(pub u16, pub u16);

/// Whether `c` lies strictly inside the extent `s`.
pub open spec fn cell_within(c: Cell, s: Size) -> bool {
    c.0 < s.0 && c.1 < s.1
}

/// Subtraction of one coordinate, clamped at zero.
pub open spec fn clamped_diff(a: u16, b: u16) -> u16 {
    if a >= b { (a - b) as u16 } else { 0 }
}

/// Component-wise sum of two cells.
pub open spec fn cell_add(a: Cell, b: Cell) -> Cell {
    Cell((a.0 + b.0) as u16, (a.1 + b.1) as u16)
}

/// Component-wise difference of two cells, clamped at zero.
pub open spec fn cell_sub(a: Cell, b: Cell) -> Cell {
    Cell(clamped_diff(a.0, b.0), clamped_diff(a.1, b.1))
}

impl Size {
    /// Reads a cell's (row, column) as an extent of (rows, columns).
    pub fn from_cell(cell: Cell) -> (r: Size)
        ensures
            r.0 == cell.0,
            r.1 == cell.1,
    {
        Size(cell.0, cell.1)
    }
}

impl Cell {
    /// The cell itself when it lies inside `size`, and `None` otherwise.
    pub fn within(self, size: Size) -> (r: Option<Cell>)
        ensures
            r == (if cell_within(self, size) { Some(self) } else { None::<Cell> }),
    {
        if self.0 < size.0 && self.1 < size.1 {
            Some(self)
        } else {
            None
        }
    }

    /// Reads an extent of (rows, columns) as a cell (row, column).
    pub fn from_size(size: Size) -> (r: Cell)
        ensures
            r.0 == size.0,
            r.1 == size.1,
    {
        Cell(size.0, size.1)
    }

    /// Component-wise sum, used to turn a relative offset into an absolute
    /// position.
    pub fn add(self, rhs: Cell) -> (r: Cell)
        requires
            self.0 + rhs.0 <= u16::MAX,
            self.1 + rhs.1 <= u16::MAX,
        ensures
            r == cell_add(self, rhs),
            r.0 == self.0 + rhs.0,
            r.1 == self.1 + rhs.1,
    {
        Cell(self.0 + rhs.0, self.1 + rhs.1)
    }

    /// Component-wise difference, each component clamped at zero so that a
    /// coordinate never goes below the grid's origin.
    pub fn sub(self, rhs: Cell) -> (r: Cell)
        ensures
            r == cell_sub(self, rhs),
    {
        let row: u16 = if self.0 >= rhs.0 { self.0 - rhs.0 } else { 0 };
        let col: u16 = if self.1 >= rhs.1 { self.1 - rhs.1 } else { 0 };
        Cell(row, col)
    }
}

/// Adding back what was subtracted restores a cell exactly when no
/// component of the subtrahend exceeds the cell's own. Where one does
/// exceed, the difference was clamped to zero, and that component of the
/// round trip comes out as the subtrahend's instead of the cell's.
pub proof fn lemma_sub_add_round_trip(a: Cell, b: Cell)
    ensures
        cell_sub(a, b).0 + b.0 <= u16::MAX,
        cell_sub(a, b).1 + b.1 <= u16::MAX,
        cell_add(cell_sub(a, b), b) == a <==> (b.0 <= a.0 && b.1 <= a.1),
        cell_add(cell_sub(a, b), b).0 == (if b.0 <= a.0 { a.0 } else { b.0 }),
        cell_add(cell_sub(a, b), b).1 == (if b.1 <= a.1 { a.1 } else { b.1 }),
{
}

/// `within` admits exactly the cells whose row and column are both below
/// the extent's; a cell on the boundary row or column is outside.
pub proof fn lemma_within_iff(c: Cell, s: Size)
    ensures
        cell_within(c, s) <==> (c.0 < s.0 && c.1 < s.1),
        c.0 == s.0 ==> !cell_within(c, s),
        c.1 == s.1 ==> !cell_within(c, s),
{
}

} // verus!
