use core::ops::Range;

use vstd::prelude::*;

use crate::plane::axis::{Axis, AxisValue, AxisX, AxisY, DynAxis};
use crate::plane::axis_vec::AxisVec;
use crate::plane::endpoint::{Endpoint, EndpointBound};
use crate::plane::endpoint_range::{spec_intersects, EndpointRange};

verus! {

/// # TileMap
///
/// Implemented on two-dimensional arrays of tile representations. Exposes the element type,
/// the dimensions and bound assertions. A tile is addressed by its index `x` on axis *x* and
/// `y` on axis *y*. See also [`TileMapView`].
pub trait TileMap: Sized {
    /// The tilemap element type.
    type El;

    /// The number of elements in a slice of axis `a`.
    spec fn spec_axis_len(&self, a: DynAxis) -> usize;

    /// The tile at index `x` on axis *x* and `y` on axis *y*.
    spec fn spec_tile(&self, x: int, y: int) -> Self::El;

    /// The backing storage holds every tile of the dimensions.
    spec fn spec_wf(&self) -> bool;

    /// Get the number of elements in a slice of axis `A`.
    fn axis_len<A: AxisValue>(&self) -> (r: usize)
        ensures
            r == self.spec_axis_len(A::spec_dyn()),
    ;

    /// Get the number of elements on both axes.
    fn size(&self) -> (r: AxisVec<usize>)
        ensures
            r.x == self.spec_axis_len(DynAxis::X),
            r.y == self.spec_axis_len(DynAxis::Y),
    {
        AxisVec::new(self.axis_len::<AxisX>(), self.axis_len::<AxisY>())
    }

    /// Get the lower/upper inclusive tile index for the given endpoint of axis `A`.
    fn bound_index<A: AxisValue>(&self, end: Endpoint<A>) -> (r: usize)
        requires
            end.bound == EndpointBound::Upper ==> self.spec_axis_len(A::spec_dyn()) > 0,
        ensures
            r == (match end.bound {
                EndpointBound::Lower => 0,
                EndpointBound::Upper => (self.spec_axis_len(A::spec_dyn()) - 1) as usize,
            }),
    {
        match end.bound {
            EndpointBound::Lower => 0,
            EndpointBound::Upper => self.axis_len::<A>() - 1,
        }
    }

    /// Get the range of the indices of axis `A`.
    fn index_range<A: AxisValue>(&self) -> (r: Range<usize>)
        ensures
            r.start == 0,
            r.end == self.spec_axis_len(A::spec_dyn()),
    {
        0..self.axis_len::<A>()
    }

    /// Returns `true` if the given `index` is in bounds.
    fn is_in_bounds<A: AxisValue>(&self, index: i32) -> (r: bool)
        ensures
            r == (index >= 0 && index < self.spec_axis_len(A::spec_dyn()) as i32),
    {
        index >= 0 && index < self.axis_len::<A>() as i32
    }

    /// Returns `true` if *any* part of the given `index` and transpose `t_range` is in bounds.
    fn range_is_in_bounds<A: Axis>(&self, index: i32, t_range: Range<i32>) -> (r: bool)
        ensures
            r == (index >= 0 && index < self.spec_axis_len(A::spec_dyn()) as i32 && spec_intersects(
                t_range,
                0..(self.spec_axis_len(A::spec_dyn().spec_t()) as i32),
            )),
    {
        proof {
            A::lemma_transpose();
        }
        self.is_in_bounds::<A>(index) && t_range.intersects(
            &(0..self.axis_len::<A::T>() as i32),
        )
    }
}

impl<'a, T: TileMap> TileMap for &'a T {
    type El = T::El;

    open spec fn spec_axis_len(&self, a: DynAxis) -> usize {
        (**self).spec_axis_len(a)
    }

    open spec fn spec_tile(&self, x: int, y: int) -> T::El {
        (**self).spec_tile(x, y)
    }

    open spec fn spec_wf(&self) -> bool {
        (**self).spec_wf()
    }

    fn axis_len<A: AxisValue>(&self) -> (r: usize) {
        T::axis_len::<A>(*self)
    }
}

/// The tile at index `i` on axis `a` and `j` on its transpose.
pub open spec fn spec_tile_on<M: TileMap>(map: &M, a: DynAxis, i: int, j: int) -> M::El {
    match a {
        DynAxis::X => map.spec_tile(i, j),
        DynAxis::Y => map.spec_tile(j, i),
    }
}

/// # TileMapView
///
/// A one-dimensional tilemap slice view: the elements at an index of axis `A` over a range of
/// the transpose axis (an [`AxisX`] row and an [`AxisY`] column respectively).
pub trait TileMapView<A: AxisValue>: TileMap {
    /// The greatest end of a transpose range that [`TileMapView::view`] admits.
    spec fn spec_view_end_lmt(&self) -> nat;

    /// A view admits every transpose range that ends within the map.
    proof fn lemma_view_end_lmt(&self)
        ensures
            self.spec_axis_len(A::spec_dyn().spec_t()) <= self.spec_view_end_lmt(),
    ;

    /// Return the elements for the fixed axis `A` index over the transpose range, up to the end
    /// of the map.
    fn view(&self, idx: usize, t_range: Range<usize>) -> (r: Vec<Self::El>)
        requires
            self.spec_wf(),
            idx < self.spec_axis_len(A::spec_dyn()),
            t_range.start <= t_range.end <= self.spec_view_end_lmt(),
        ensures
            r@.len() == spec_view_len(t_range, self.spec_axis_len(A::spec_dyn().spec_t())),
            forall|k: int|
                0 <= k < r@.len() ==> r@[k] == spec_tile_on(
                    self,
                    A::spec_dyn(),
                    idx as int,
                    t_range.start + k,
                ),
    ;
}

/// The number of elements of the transpose range `t_range` up to the transpose length `lmt`.
pub open spec fn spec_view_len(t_range: Range<usize>, lmt: usize) -> int {
    if t_range.end <= lmt {
        t_range.end - t_range.start
    } else if t_range.start <= lmt {
        lmt - t_range.start
    } else {
        0
    }
}

impl<'a, A: AxisValue, T: TileMapView<A>> TileMapView<A> for &'a T {
    open spec fn spec_view_end_lmt(&self) -> nat {
        (**self).spec_view_end_lmt()
    }

    proof fn lemma_view_end_lmt(&self) {
        (**self).lemma_view_end_lmt();
    }

    fn view(&self, idx: usize, t_range: Range<usize>) -> (r: Vec<T::El>) {
        T::view(*self, idx, t_range)
    }
}

} // verus!
