//! Row-major scans over a rectangular region of the screen.
use vstd::prelude::*;
use vstd::arithmetic::div_mod::lemma_fundamental_div_mod;
use vstd::arithmetic::div_mod::lemma_fundamental_div_mod_converse;
use crate::geometry::{Cell, Size, cell_within};

verus! {

/// The cells of the region that starts at `start` and spans `size`, in
/// row-major order: left to right across a row, then on to the next row.
pub open spec fn region(start: Cell, size: Size) -> Seq<Cell> {
    Seq::new(
        (size.0 * size.1) as nat,
        |k: int| Cell((start.0 + k / (size.1 as int)) as u16, (start.1 + k % (size.1 as int)) as u16),
    )
}

/// The extent that bounds the region absolutely: one past its last row and
/// one past its last column.
pub open spec fn region_bound(start: Cell, size: Size) -> Size {
    Size((start.0 + size.0) as u16, (start.1 + size.1) as u16)
}

/// Whether the region's absolute bound fits in the coordinate width.
pub open spec fn region_fits(start: Cell, size: Size) -> bool {
    start.0 + size.0 <= u16::MAX && start.1 + size.1 <= u16::MAX
}

/// A single pass over the cells of a region, clipped to its absolute bound.
/// Once it has given out its last cell it gives nothing, for good.
pub struct CellIterator {
    next_cell: Option<Cell>,
    size: Size,
    width: u16,
    origin: Ghost<Cell>,
    extent: Ghost<Size>,
    taken: Ghost<nat>,
}

impl CellIterator {
    #[verifier::type_invariant]
    spec fn inv(self) -> bool {
        let len = self.extent@.0 * self.extent@.1;
        &&& region_fits(self.origin@, self.extent@)
        &&& self.size == region_bound(self.origin@, self.extent@)
        &&& self.width == self.extent@.1
        &&& self.taken@ <= len
        &&& self.next_cell == if self.taken@ < len {
            Some(region(self.origin@, self.extent@)[self.taken@ as int])
        } else {
            None::<Cell>
        }
    }
}

impl View for CellIterator {
    type V = Seq<Cell>;

    /// The cells still to come, in the order they will be given out.
    closed spec fn view(&self) -> Seq<Cell> {
        region(self.origin@, self.extent@).skip(self.taken@ as int)
    }
}

/// Where the cell at position `k` of a region sits relative to the one
/// before it: one column to the right on the same row, or at the start of
/// the next row.
proof fn lemma_region_step(start: Cell, size: Size, k: int)
    requires
        region_fits(start, size),
        0 <= k < size.0 * size.1,
    ensures
        ({
            let c = region(start, size)[k];
            let len = size.0 * size.1;
            &&& cell_within(c, region_bound(start, size))
            &&& c.1 >= start.1
            &&& (c.1 + 1 < start.1 + size.1) ==> (k + 1 < len && region(start, size)[k + 1] == Cell(c.0, (c.1 + 1) as u16))
            &&& !(c.1 + 1 < start.1 + size.1) ==> {
                &&& c.1 == start.1 + size.1 - 1
                &&& (k + 1 < len <==> c.0 + 1 < start.0 + size.0)
                &&& k + 1 < len ==> region(start, size)[k + 1] == Cell((c.0 + 1) as u16, start.1)
            }
        }),
{
    let w = size.1 as int;
    let rows = size.0 as int;
    assert(w > 0) by (nonlinear_arith)
        requires 0 <= k < rows * w, rows >= 0, w >= 0;
    lemma_fundamental_div_mod(k, w);
    let q = k / w;
    let r = k % w;
    assert(q < rows) by (nonlinear_arith)
        requires k == w * q + r, 0 <= r < w, k < rows * w, w > 0;
    assert(q >= 0) by (nonlinear_arith)
        requires k == w * q + r, 0 <= r < w, k >= 0, w > 0;
    assert(w * q == q * w) by (nonlinear_arith);
    if r + 1 < w {
        lemma_fundamental_div_mod_converse(k + 1, w, q, r + 1);
        assert(k + 1 < rows * w) by (nonlinear_arith)
            requires k + 1 == q * w + (r + 1), r + 1 < w, q < rows, q >= 0, w > 0;
    } else {
        assert(k + 1 == (q + 1) * w) by (nonlinear_arith)
            requires k == q * w + r, r == w - 1;
        lemma_fundamental_div_mod_converse(k + 1, w, q + 1, 0);
        assert(k + 1 < rows * w <==> q + 1 < rows) by (nonlinear_arith)
            requires k + 1 == (q + 1) * w, w > 0;
    }
}

impl CellIterator {
    /// Starts a scan of the region of extent `size` whose top-left cell is
    /// `start`. The scan gives out every cell of the region, row by row.
    pub fn new(start: Cell, size: Size) -> (it: CellIterator)
        requires
            region_fits(start, size),
        ensures
            it@ == region(start, size),
    {
        let width = size.1;
        let abs_size = Size::from_cell(start.add(Cell::from_size(size)));
        let first = start.within(abs_size);
        proof {
            let len = size.0 * size.1;
            assert(len > 0 <==> (size.0 > 0 && size.1 > 0)) by (nonlinear_arith)
                requires len == size.0 * size.1, size.0 >= 0, size.1 >= 0;
            if len > 0 {
                assert(region(start, size)[0] == start);
            }
            assert(region(start, size).skip(0) =~= region(start, size));
        }
        CellIterator {
            next_cell: first,
            size: abs_size,
            width,
            origin: Ghost(start),
            extent: Ghost(size),
            taken: Ghost(0),
        }
    }

    /// Gives out the next cell of the scan, or `None` once the region is
    /// exhausted, and from then on.
    pub fn next(&mut self) -> (r: Option<Cell>)
        ensures
            old(self)@.len() == 0 ==> r is None && final(self)@ == old(self)@,
            old(self)@.len() > 0 ==> r == Some(old(self)@[0]) && final(self)@ == old(self)@.drop_first(),
    {
        proof {
            use_type_invariant(&*self);
        }
        let ret = self.next_cell;
        match self.next_cell {
            None => {},
            Some(cell) => {
                proof {
                    lemma_region_step(self.origin@, self.extent@, self.taken@ as int);
                }
                let right = cell.add(Cell(0, 1)).within(self.size);
                let following = match right {
                    Some(c) => Some(c),
                    None => cell.sub(Cell(0, self.width - 1)).add(Cell(1, 0)).within(self.size),
                };
                proof {
                    assert(region(self.origin@, self.extent@).skip(self.taken@ + 1int) =~= self@.drop_first());
                }
                *self = CellIterator {
                    next_cell: following,
                    size: self.size,
                    width: self.width,
                    origin: self.origin,
                    extent: self.extent,
                    taken: Ghost(self.taken@ + 1),
                };
            },
        }
        ret
    }
}

/// A scan whose start cell already lies outside the region's absolute bound
/// gives out nothing at all.
pub proof fn lemma_start_outside_is_empty(start: Cell, size: Size)
    requires
        region_fits(start, size),
        !cell_within(start, region_bound(start, size)),
    ensures
        region(start, size).len() == 0,
{
    assert(size.0 == 0 || size.1 == 0);
    assert(size.0 * size.1 == 0) by (nonlinear_arith)
        requires size.0 == 0 || size.1 == 0;
}

/// A scan over a region with no columns gives out at most its start cell,
/// and here not even that: the start cell is outside the bound, so the scan
/// is empty.
pub proof fn lemma_zero_width_is_empty(start: Cell, size: Size)
    requires
        region_fits(start, size),
        size.1 == 0,
    ensures
        !cell_within(start, region_bound(start, size)),
        region(start, size).len() == 0,
{
    assert(size.0 * size.1 == 0) by (nonlinear_arith)
        requires size.1 == 0;
}

} // verus!
