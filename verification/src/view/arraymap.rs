use core::ops::Range;

use vstd::prelude::*;
use vstd::std_specs::convert::IntoSpec;

use crate::plane::axis::{AxisValue, AxisX, AxisY, DynAxis};
use crate::plane::axis_vec::AxisVec;
use crate::view::tilemap::{TileMap, TileMapView};

verus! {

/// A two dimensional array with **row major** ordering: `X` rows (axis *x*) of `Y` elements
/// (axis *y*), and the total number of elements, `N`.
pub struct ArrayMap<const X: usize, const Y: usize, const N: usize, T>(pub [T; N]);

impl<const X: usize, const Y: usize, const N: usize, T: Copy> Clone for ArrayMap<X, Y, N, T> {
    fn clone(&self) -> (r: Self)
        ensures
            r.0@ == self.0@,
    {
        ArrayMap(self.0)
    }
}

impl<const X: usize, const Y: usize, const N: usize, T: Copy> Copy for ArrayMap<X, Y, N, T> {

}

impl<const X: usize, const Y: usize, const N: usize, T> ArrayMap<X, Y, N, T> {
    /// Create a new `ArrayMap` containing the given elements; the number of elements is that of
    /// the dimensions.
    pub fn new(array: [T; N]) -> (r: Self)
        requires
            N == X * Y,
        ensures
            r.0@ == array@,
    {
        ArrayMap(array)
    }

    /// Create a new `ArrayMap` containing the given elements, whatever the dimensions.
    pub fn new_unchecked(array: [T; N]) -> (r: Self)
        ensures
            r.0@ == array@,
    {
        ArrayMap(array)
    }
}

impl<const X: usize, const Y: usize, const N: usize, T: Copy> TileMap for ArrayMap<X, Y, N, T> {
    type El = T;

    open spec fn spec_axis_len(&self, a: DynAxis) -> usize {
        match a {
            DynAxis::X => X,
            DynAxis::Y => Y,
        }
    }

    open spec fn spec_tile(&self, x: int, y: int) -> T {
        self.0@[x * Y + y]
    }

    open spec fn spec_wf(&self) -> bool {
        N == X * Y
    }

    fn axis_len<A: AxisValue>(&self) -> (r: usize) {
        match A::into_dyn() {
            DynAxis::X => X,
            DynAxis::Y => Y,
        }
    }
}

/// The elements `slice[i * row_len + col]` for `i` in `range`.
fn col_stride<T: Copy>(slice: &[T], row_len: usize, col: usize, range: Range<usize>) -> (r: Vec<T>)
    requires
        range.start <= range.end,
        col < row_len,
        range.end * row_len <= slice@.len(),
    ensures
        r@.len() == range.end - range.start,
        forall|k: int|
            0 <= k < r@.len() ==> r@[k] == slice@[(range.start + k) * row_len + col],
{
    let n = slice.len();
    let mut r: Vec<T> = Vec::new();
    let mut i = range.start;
    while i < range.end
        invariant
            n == slice@.len(),
            range.start <= i <= range.end,
            col < row_len,
            range.end * row_len <= slice@.len(),
            r@.len() == i - range.start,
            forall|k: int|
                0 <= k < r@.len() ==> r@[k] == slice@[(range.start + k) * row_len + col],
        decreases range.end - i,
    {
        proof {
            assert((i + 1) * row_len <= range.end * row_len) by (nonlinear_arith)
                requires
                    i + 1 <= range.end,
            ;
            assert(i * row_len + col < (i + 1) * row_len) by (nonlinear_arith)
                requires
                    col < row_len,
            ;
        }
        r.push(slice[i * row_len + col]);
        i = i + 1;
    }
    r
}

/// The elements `slice[start..start + len]`.
fn row_slice<T: Copy>(slice: &[T], start: usize, len: usize) -> (r: Vec<T>)
    requires
        start + len <= slice@.len(),
    ensures
        r@ == slice@.subrange(start as int, start + len),
{
    let n = slice.len();
    let mut r: Vec<T> = Vec::new();
    let mut k: usize = 0;
    while k < len
        invariant
            n == slice@.len(),
            k <= len,
            start + len <= slice@.len(),
            r@ == slice@.subrange(start as int, start + k),
        decreases len - k,
    {
        r.push(slice[start + k]);
        k = k + 1;
    }
    r
}

pub(crate) proof fn lemma_row_in_bounds(idx: usize, y: usize, x: usize, end: usize)
    requires
        idx < x,
        end <= y,
    ensures
        idx * y + end <= x * y,
{
    assert(idx * y + end <= x * y) by (nonlinear_arith)
        requires
            idx < x,
            end <= y,
    ;
}

impl<const X: usize, const Y: usize, const N: usize, T: Copy> TileMapView<AxisX> for ArrayMap<
    X,
    Y,
    N,
    T,
> {
    open spec fn spec_view_end_lmt(&self) -> nat {
        self.spec_axis_len(DynAxis::Y) as nat
    }

    proof fn lemma_view_end_lmt(&self) {
    }

    fn view(&self, idx: usize, range: Range<usize>) -> (r: Vec<T>) {
        proof {
            lemma_row_in_bounds(idx, Y, X, range.end);
        }
        let start = idx * Y + range.start;
        row_slice(self.0.as_slice(), start, range.end - range.start)
    }
}

impl<const X: usize, const Y: usize, const N: usize, T: Copy> TileMapView<AxisY> for ArrayMap<
    X,
    Y,
    N,
    T,
> {
    open spec fn spec_view_end_lmt(&self) -> nat {
        self.spec_axis_len(DynAxis::X) as nat
    }

    proof fn lemma_view_end_lmt(&self) {
    }

    fn view(&self, idx: usize, range: Range<usize>) -> (r: Vec<T>) {
        proof {
            assert(range.end * Y <= X * Y) by (nonlinear_arith)
                requires
                    range.end <= X,
            ;
        }
        col_stride(self.0.as_slice(), Y, idx, range)
    }
}

/// A two dimensional vector with **row major** ordering. Dimensions are stored as an
/// [`AxisVec`] of the number of rows and columns (axis *x* and *y* respectively).
pub struct VecMap<T> {
    /// The element vector.
    pub vec: Vec<T>,
    /// The dimensions.
    pub dim: AxisVec<usize>,
}

impl<T> VecMap<T> {
    /// Create a new `VecMap` containing the given element vector of the given dimensions, where
    /// the dimensions match the vector length.
    pub fn new<D: Into<AxisVec<usize>>>(vec: Vec<T>, dim: D) -> (r: Self)
        requires
            D::obeys_into_spec(),
            vec@.len() == dim.into_spec().x * dim.into_spec().y,
        ensures
            r.vec@ == vec@,
            r.dim == dim.into_spec(),
    {
        let dim: AxisVec<usize> = dim.into();
        VecMap { vec, dim }
    }

    /// Create a new `VecMap` containing the given element vector of the given dimensions,
    /// whatever the vector length.
    pub fn new_unchecked<D: Into<AxisVec<usize>>>(vec: Vec<T>, dim: D) -> (r: Self)
        ensures
            r.vec@ == vec@,
            D::obeys_into_spec() ==> r.dim == dim.into_spec(),
    {
        VecMap { vec, dim: dim.into() }
    }
}

impl<T: Copy> TileMap for VecMap<T> {
    type El = T;

    open spec fn spec_axis_len(&self, a: DynAxis) -> usize {
        self.dim.spec_get(a)
    }

    open spec fn spec_tile(&self, x: int, y: int) -> T {
        self.vec@[x * self.dim.y + y]
    }

    open spec fn spec_wf(&self) -> bool {
        self.vec@.len() == self.dim.x * self.dim.y
    }

    fn axis_len<A: AxisValue>(&self) -> (r: usize) {
        match A::into_dyn() {
            DynAxis::X => self.dim.x,
            DynAxis::Y => self.dim.y,
        }
    }
}

impl<T: Copy> TileMapView<AxisX> for VecMap<T> {
    open spec fn spec_view_end_lmt(&self) -> nat {
        self.spec_axis_len(DynAxis::Y) as nat
    }

    proof fn lemma_view_end_lmt(&self) {
    }

    fn view(&self, idx: usize, range: Range<usize>) -> (r: Vec<T>) {
        let n = self.vec.len();
        proof {
            lemma_row_in_bounds(idx, self.dim.y, self.dim.x, range.end);
        }
        let start = idx * self.dim.y + range.start;
        row_slice(self.vec.as_slice(), start, range.end - range.start)
    }
}

impl<T: Copy> TileMapView<AxisY> for VecMap<T> {
    open spec fn spec_view_end_lmt(&self) -> nat {
        self.spec_axis_len(DynAxis::X) as nat
    }

    proof fn lemma_view_end_lmt(&self) {
    }

    fn view(&self, idx: usize, range: Range<usize>) -> (r: Vec<T>) {
        proof {
            let (x, y) = (self.dim.x, self.dim.y);
            assert(range.end * y <= x * y) by (nonlinear_arith)
                requires
                    range.end <= x,
            ;
        }
        col_stride(self.vec.as_slice(), self.dim.y, idx, range)
    }
}

} // verus!
