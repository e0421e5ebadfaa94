//! A tilemap over the `mdarray` crate's two-dimensional arrays.
use core::ops::Range;

use mdarray::Array;

use vstd::prelude::*;

use crate::plane::axis::{AxisValue, AxisX, AxisY, DynAxis};
use crate::view::ndmap::{lemma_row_major_in_bounds, lemma_row_major_injective, spec_row_major};
use crate::view::tilemap::{TileMap, TileMapView};

verus! {

/// # MdMap
///
/// A tilemap held in an `mdarray::Array<u8, (usize, usize)>`: the element `[x, y]` is the
/// tile at index `x` on axis *x* and `y` on axis *y*, so that a row is an [`AxisX`] slice and a
/// column an [`AxisY`] slice.
#[verifier::external_body]
pub struct MdMap {
    arr: Array<u8, (usize, usize)>,
}

/// The dimensions `(rows, columns)` of the array of an [`MdMap`].
pub uninterp spec fn mdmap_dim(m: MdMap) -> (usize, usize);

/// The elements of the array of an [`MdMap`] in row-major order: `[x, y]` at `x * columns + y`.
pub uninterp spec fn mdmap_tiles(m: MdMap) -> Seq<u8>;

/// `Array::from_elem` with `0`: an array of `x` rows and `y` columns of zeros. It panics where
/// the number of elements overflows `usize` or its allocation exceeds `isize::MAX` bytes.
#[verifier::external_body]
fn md_zeros(x: usize, y: usize) -> (r: MdMap)
    requires
        x * y <= isize::MAX,
    ensures
        mdmap_dim(r) == (x, y),
        mdmap_tiles(r) == Seq::new((x * y) as nat, |_i: int| 0u8),
{
    MdMap { arr: Array::from_elem((x, y), 0u8) }
}

/// `Slice::dim` of axes `0` and `1`: the number of rows and columns.
#[verifier::external_body]
fn md_dim(m: &MdMap) -> (r: (usize, usize))
    ensures
        r == mdmap_dim(*m),
{
    (m.arr.dim(0), m.arr.dim(1))
}

/// Indexing by `[x, y]`: the element at row `x` and column `y`, which panics out of bounds.
#[verifier::external_body]
fn md_get(m: &MdMap, x: usize, y: usize) -> (r: u8)
    requires
        x < mdmap_dim(*m).0,
        y < mdmap_dim(*m).1,
    ensures
        r == mdmap_tiles(*m)[spec_row_major(x as int, y as int, mdmap_dim(*m).1)],
{
    m.arr[[x, y]]
}

/// Mutable indexing by `[x, y]`: write the element at row `x` and column `y`, which panics out
/// of bounds.
#[verifier::external_body]
fn md_set(m: &mut MdMap, x: usize, y: usize, value: u8)
    requires
        x < mdmap_dim(*old(m)).0,
        y < mdmap_dim(*old(m)).1,
    ensures
        mdmap_dim(*final(m)) == mdmap_dim(*old(m)),
        mdmap_tiles(*final(m)) == mdmap_tiles(*old(m)).update(
            spec_row_major(x as int, y as int, mdmap_dim(*old(m)).1),
            value,
        ),
{
    m.arr[[x, y]] = value;
}

impl MdMap {
    /// Create a map of `x` rows and `y` columns of zero tiles.
    pub fn zeros(x: usize, y: usize) -> (r: Self)
        requires
            x * y <= isize::MAX,
        ensures
            r.spec_wf(),
            r.spec_axis_len(DynAxis::X) == x,
            r.spec_axis_len(DynAxis::Y) == y,
            forall|i: int, j: int| 0 <= i < x && 0 <= j < y ==> #[trigger] r.spec_tile(i, j) == 0u8,
    {
        let r = md_zeros(x, y);
        proof {
            assert forall|i: int, j: int| 0 <= i < x && 0 <= j < y implies #[trigger] r.spec_tile(
                i,
                j,
            ) == 0u8 by {
                lemma_row_major_in_bounds(i, j, x, y);
            }
        }
        r
    }

    /// Get the tile at index `x` on axis *x* and `y` on axis *y*.
    pub fn get(&self, x: usize, y: usize) -> (r: u8)
        requires
            x < self.spec_axis_len(DynAxis::X),
            y < self.spec_axis_len(DynAxis::Y),
        ensures
            r == self.spec_tile(x as int, y as int),
    {
        md_get(self, x, y)
    }

    /// Set the tile at index `x` on axis *x* and `y` on axis *y*.
    pub fn set(&mut self, x: usize, y: usize, value: u8)
        requires
            old(self).spec_wf(),
            x < old(self).spec_axis_len(DynAxis::X),
            y < old(self).spec_axis_len(DynAxis::Y),
        ensures
            final(self).spec_wf(),
            final(self).spec_axis_len(DynAxis::X) == old(self).spec_axis_len(DynAxis::X),
            final(self).spec_axis_len(DynAxis::Y) == old(self).spec_axis_len(DynAxis::Y),
            final(self).spec_tile(x as int, y as int) == value,
            forall|i: int, j: int|
                0 <= i < old(self).spec_axis_len(DynAxis::X) && 0 <= j < old(self).spec_axis_len(
                    DynAxis::Y,
                ) && (i != x || j != y) ==> #[trigger] final(self).spec_tile(i, j) == old(
                    self,
                ).spec_tile(i, j),
    {
        let ghost (rows, cols) = mdmap_dim(*self);
        proof {
            lemma_row_major_in_bounds(x as int, y as int, rows, cols);
        }
        md_set(self, x, y, value);
        proof {
            assert forall|i: int, j: int|
                0 <= i < rows && 0 <= j < cols && (i != x || j != y) implies #[trigger] self.spec_tile(
                i,
                j,
            ) == old(self).spec_tile(i, j) by {
                lemma_row_major_in_bounds(i, j, rows, cols);
                lemma_row_major_injective(i, j, x as int, y as int, cols);
            }
        }
    }
}

impl TileMap for MdMap {
    type El = u8;

    open spec fn spec_axis_len(&self, a: DynAxis) -> usize {
        match a {
            DynAxis::X => mdmap_dim(*self).0,
            DynAxis::Y => mdmap_dim(*self).1,
        }
    }

    open spec fn spec_tile(&self, x: int, y: int) -> u8 {
        mdmap_tiles(*self)[spec_row_major(x, y, mdmap_dim(*self).1)]
    }

    open spec fn spec_wf(&self) -> bool {
        mdmap_tiles(*self).len() == mdmap_dim(*self).0 * mdmap_dim(*self).1
    }

    fn axis_len<A: AxisValue>(&self) -> (r: usize) {
        let (rows, cols) = md_dim(self);
        match A::into_dyn() {
            DynAxis::X => rows,
            DynAxis::Y => cols,
        }
    }
}

impl TileMapView<AxisX> for MdMap {
    open spec fn spec_view_end_lmt(&self) -> nat {
        self.spec_axis_len(DynAxis::Y) as nat
    }

    proof fn lemma_view_end_lmt(&self) {
    }

    /// The tiles `range` of row `idx`.
    fn view(&self, idx: usize, range: Range<usize>) -> (r: Vec<u8>) {
        let mut r: Vec<u8> = Vec::new();
        let mut j = range.start;
        while j < range.end
            invariant
                idx < mdmap_dim(*self).0,
                range.start <= j <= range.end <= mdmap_dim(*self).1,
                r@.len() == j - range.start,
                forall|k: int| 0 <= k < r@.len() ==> r@[k] == self.spec_tile(idx as int, range.start + k),
            decreases range.end - j,
        {
            r.push(md_get(self, idx, j));
            j = j + 1;
        }
        r
    }
}

impl TileMapView<AxisY> for MdMap {
    open spec fn spec_view_end_lmt(&self) -> nat {
        self.spec_axis_len(DynAxis::X) as nat
    }

    proof fn lemma_view_end_lmt(&self) {
    }

    /// The tiles `range` of column `idx`.
    fn view(&self, idx: usize, range: Range<usize>) -> (r: Vec<u8>) {
        let mut r: Vec<u8> = Vec::new();
        let mut i = range.start;
        while i < range.end
            invariant
                idx < mdmap_dim(*self).1,
                range.start <= i <= range.end <= mdmap_dim(*self).0,
                r@.len() == i - range.start,
                forall|k: int| 0 <= k < r@.len() ==> r@[k] == self.spec_tile(range.start + k, idx as int),
            decreases range.end - i,
        {
            r.push(md_get(self, i, idx));
            i = i + 1;
        }
        r
    }
}

} // verus!
