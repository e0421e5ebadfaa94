//! A tilemap over the `ndarray` crate's two-dimensional arrays.
use core::ops::Range;

use ndarray::Array2;

use vstd::prelude::*;

use crate::plane::axis::{AxisValue, AxisX, AxisY, DynAxis};
use crate::view::tilemap::{TileMap, TileMapView};

verus! {

/// # NdMap
///
/// A tilemap held in an `ndarray::Array2<u8>`: the element `[x, y]` is the tile at index `x` on
/// axis *x* and `y` on axis *y*, so that a row is an [`AxisX`] slice and a column an [`AxisY`]
/// slice.
#[verifier::external_body]
pub struct NdMap {
    arr: Array2<u8>,
}

/// The dimensions `(rows, columns)` of the array of an [`NdMap`].
pub uninterp spec fn ndmap_dim(m: NdMap) -> (usize, usize);

/// The elements of the array of an [`NdMap`] in row-major order: `[x, y]` at `x * columns + y`.
pub uninterp spec fn ndmap_tiles(m: NdMap) -> Seq<u8>;

/// The product of the non-zero lengths of a shape.
pub open spec fn spec_nonzero_product(x: usize, y: usize) -> int {
    (if x == 0 { 1 } else { x as int }) * (if y == 0 { 1 } else { y as int })
}

/// The row-major position of element `[x, y]` in an array of `cols` columns.
pub open spec fn spec_row_major(x: int, y: int, cols: usize) -> int {
    x * cols + y
}

/// `Array2::zeros`: an array of `x` rows and `y` columns of zeros. It panics where the product
/// of the non-zero lengths exceeds `isize::MAX`.
#[verifier::external_body]
fn nd_zeros(x: usize, y: usize) -> (r: NdMap)
    requires
        spec_nonzero_product(x, y) <= isize::MAX,
    ensures
        ndmap_dim(r) == (x, y),
        ndmap_tiles(r) == Seq::new((x * y) as nat, |_i: int| 0u8),
{
    NdMap { arr: Array2::zeros((x, y)) }
}

/// `ArrayBase::dim`: the number of rows and columns.
#[verifier::external_body]
fn nd_dim(m: &NdMap) -> (r: (usize, usize))
    ensures
        r == ndmap_dim(*m),
{
    m.arr.dim()
}

/// Indexing by `[x, y]`: the element at row `x` and column `y`, which panics out of bounds.
#[verifier::external_body]
fn nd_get(m: &NdMap, x: usize, y: usize) -> (r: u8)
    requires
        x < ndmap_dim(*m).0,
        y < ndmap_dim(*m).1,
    ensures
        r == ndmap_tiles(*m)[spec_row_major(x as int, y as int, ndmap_dim(*m).1)],
{
    m.arr[[x, y]]
}

/// Mutable indexing by `[x, y]`: write the element at row `x` and column `y`, which panics out
/// of bounds.
#[verifier::external_body]
fn nd_set(m: &mut NdMap, x: usize, y: usize, value: u8)
    requires
        x < ndmap_dim(*old(m)).0,
        y < ndmap_dim(*old(m)).1,
    ensures
        ndmap_dim(*final(m)) == ndmap_dim(*old(m)),
        ndmap_tiles(*final(m)) == ndmap_tiles(*old(m)).update(
            spec_row_major(x as int, y as int, ndmap_dim(*old(m)).1),
            value,
        ),
{
    m.arr[[x, y]] = value;
}

impl NdMap {
    /// Create a map of `x` rows and `y` columns of zero tiles.
    pub fn zeros(x: usize, y: usize) -> (r: Self)
        requires
            spec_nonzero_product(x, y) <= isize::MAX,
        ensures
            r.spec_wf(),
            r.spec_axis_len(DynAxis::X) == x,
            r.spec_axis_len(DynAxis::Y) == y,
            forall|i: int, j: int| 0 <= i < x && 0 <= j < y ==> #[trigger] r.spec_tile(i, j) == 0u8,
    {
        let r = nd_zeros(x, y);
        proof {
            assert forall|i: int, j: int| 0 <= i < x && 0 <= j < y implies #[trigger] r.spec_tile(
                i,
                j,
            ) == 0u8 by {
                lemma_row_major_in_bounds(i, j, x, y);
            }
        }
        r
    }

    /// Get the tile at index `x` on axis *x* and `y` on axis *y*.
    pub fn get(&self, x: usize, y: usize) -> (r: u8)
        requires
            x < self.spec_axis_len(DynAxis::X),
            y < self.spec_axis_len(DynAxis::Y),
        ensures
            r == self.spec_tile(x as int, y as int),
    {
        nd_get(self, x, y)
    }

    /// Set the tile at index `x` on axis *x* and `y` on axis *y*.
    pub fn set(&mut self, x: usize, y: usize, value: u8)
        requires
            old(self).spec_wf(),
            x < old(self).spec_axis_len(DynAxis::X),
            y < old(self).spec_axis_len(DynAxis::Y),
        ensures
            final(self).spec_wf(),
            final(self).spec_axis_len(DynAxis::X) == old(self).spec_axis_len(DynAxis::X),
            final(self).spec_axis_len(DynAxis::Y) == old(self).spec_axis_len(DynAxis::Y),
            final(self).spec_tile(x as int, y as int) == value,
            forall|i: int, j: int|
                0 <= i < old(self).spec_axis_len(DynAxis::X) && 0 <= j < old(self).spec_axis_len(
                    DynAxis::Y,
                ) && (i != x || j != y) ==> #[trigger] final(self).spec_tile(i, j) == old(
                    self,
                ).spec_tile(i, j),
    {
        let ghost (rows, cols) = ndmap_dim(*self);
        proof {
            lemma_row_major_in_bounds(x as int, y as int, rows, cols);
        }
        nd_set(self, x, y, value);
        proof {
            assert forall|i: int, j: int|
                0 <= i < rows && 0 <= j < cols && (i != x || j != y) implies #[trigger] self.spec_tile(
                i,
                j,
            ) == old(self).spec_tile(i, j) by {
                lemma_row_major_in_bounds(i, j, rows, cols);
                lemma_row_major_injective(i, j, x as int, y as int, cols);
            }
        }
    }
}

/// The row-major position of an element in bounds is in bounds.
pub(crate) proof fn lemma_row_major_in_bounds(i: int, j: int, rows: usize, cols: usize)
    requires
        0 <= i < rows,
        0 <= j < cols,
    ensures
        0 <= spec_row_major(i, j, cols) < rows * cols,
{
    assert(i * cols + j < rows * cols) by (nonlinear_arith)
        requires
            0 <= i < rows,
            0 <= j < cols,
    ;
    assert(0 <= i * cols) by (nonlinear_arith)
        requires
            0 <= i,
            0 <= cols,
    ;
}

/// Distinct elements in bounds have distinct row-major positions.
pub(crate) proof fn lemma_row_major_injective(i: int, j: int, x: int, y: int, cols: usize)
    requires
        0 <= j < cols,
        0 <= y < cols,
        i != x || j != y,
    ensures
        spec_row_major(i, j, cols) != spec_row_major(x, y, cols),
{
    if i == x {
    } else if i < x {
        assert(i * cols + cols <= x * cols) by (nonlinear_arith)
            requires
                i < x,
                0 <= cols,
        ;
    } else {
        assert(x * cols + cols <= i * cols) by (nonlinear_arith)
            requires
                x < i,
                0 <= cols,
        ;
    }
}

impl TileMap for NdMap {
    type El = u8;

    open spec fn spec_axis_len(&self, a: DynAxis) -> usize {
        match a {
            DynAxis::X => ndmap_dim(*self).0,
            DynAxis::Y => ndmap_dim(*self).1,
        }
    }

    open spec fn spec_tile(&self, x: int, y: int) -> u8 {
        ndmap_tiles(*self)[spec_row_major(x, y, ndmap_dim(*self).1)]
    }

    open spec fn spec_wf(&self) -> bool {
        ndmap_tiles(*self).len() == ndmap_dim(*self).0 * ndmap_dim(*self).1
    }

    fn axis_len<A: AxisValue>(&self) -> (r: usize) {
        let (rows, cols) = nd_dim(self);
        match A::into_dyn() {
            DynAxis::X => rows,
            DynAxis::Y => cols,
        }
    }
}

impl TileMapView<AxisX> for NdMap {
    open spec fn spec_view_end_lmt(&self) -> nat {
        self.spec_axis_len(DynAxis::Y) as nat
    }

    proof fn lemma_view_end_lmt(&self) {
    }

    /// The tiles `range` of row `idx`.
    fn view(&self, idx: usize, range: Range<usize>) -> (r: Vec<u8>) {
        let mut r: Vec<u8> = Vec::new();
        let mut j = range.start;
        while j < range.end
            invariant
                idx < ndmap_dim(*self).0,
                range.start <= j <= range.end <= ndmap_dim(*self).1,
                r@.len() == j - range.start,
                forall|k: int| 0 <= k < r@.len() ==> r@[k] == self.spec_tile(idx as int, range.start + k),
            decreases range.end - j,
        {
            r.push(nd_get(self, idx, j));
            j = j + 1;
        }
        r
    }
}

impl TileMapView<AxisY> for NdMap {
    open spec fn spec_view_end_lmt(&self) -> nat {
        self.spec_axis_len(DynAxis::X) as nat
    }

    proof fn lemma_view_end_lmt(&self) {
    }

    /// The tiles `range` of column `idx`.
    fn view(&self, idx: usize, range: Range<usize>) -> (r: Vec<u8>) {
        let mut r: Vec<u8> = Vec::new();
        let mut i = range.start;
        while i < range.end
            invariant
                idx < ndmap_dim(*self).1,
                range.start <= i <= range.end <= ndmap_dim(*self).0,
                r@.len() == i - range.start,
                forall|k: int| 0 <= k < r@.len() ==> r@[k] == self.spec_tile(range.start + k, idx as int),
            decreases range.end - i,
        {
            r.push(nd_get(self, i, idx));
            i = i + 1;
        }
        r
    }
}

} // verus!
