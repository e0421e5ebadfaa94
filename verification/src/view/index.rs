use core::marker::PhantomData;
use core::ops::Range;

use vstd::prelude::*;

use crate::plane::axis::{Axis, AxisValue, DynAxis};
use crate::plane::axis_vec::AxisVec;
use crate::plane::endpoint::{Endpoint, EndpointBound};
use crate::plane::endpoint_pair::EndpointPair;
use crate::plane::endpoint_range::{spec_intersects, EndpointRange};

verus! {

/// The number of elements of a half-open `i32` range.
pub open spec fn spec_range_len(r: Range<i32>) -> nat {
    if r.start < r.end {
        (r.end - r.start) as nat
    } else {
        0
    }
}

/// Return the number of elements of a half-open `i32` range.
pub fn range_len(r: &Range<i32>) -> (n: usize)
    ensures
        n == spec_range_len(*r),
{
    if r.start < r.end {
        let d: i64 = r.end as i64 - r.start as i64;
        d as usize
    } else {
        0
    }
}

/// # SliceIndex
///
/// A range of tiles which at least partially intersects the map on both axes: an index
/// `t_index` on axis `A` and a range of elements on its transpose. Offers operations for
/// cropping the range in-bounds and for the number of out-of-bound elements (the *padding*).
#[derive(Debug, PartialEq, Eq)]
pub struct SliceIndex<A: Axis> {
    /// The tile range axis.
    pub _axis: PhantomData<A>,
    /// The slice index on axis `A`.
    pub t_index: usize,
    /// The slice range on the transpose axis.
    pub range: Range<i32>,
    /// The upper exclusive index bound of the range.
    pub range_lmt: i32,
    /// The tile bound endpoint on the transpose axis.
    pub end: Endpoint<A::T>,
}

/// # SliceIndexError
///
/// The error of a slice index with no element in bounds.
#[derive(Debug, PartialEq, Eq)]
pub struct SliceIndexError<A: Axis> {
    /// The tile range axis.
    pub _axis: PhantomData<A>,
    /// The slice index on axis `A`.
    pub t_index: i32,
    /// The input range on the transpose axis.
    pub range: Range<i32>,
    /// The tile bound endpoint.
    pub end: Endpoint<A::T>,
}

impl<A: Axis> Clone for SliceIndex<A> {
    fn clone(&self) -> (r: Self)
        ensures
            r == *self,
    {
        SliceIndex {
            _axis: PhantomData,
            t_index: self.t_index,
            range: self.range.start..self.range.end,
            range_lmt: self.range_lmt,
            end: self.end,
        }
    }
}

impl<A: Axis> Clone for SliceIndexError<A> {
    fn clone(&self) -> (r: Self)
        ensures
            r == *self,
    {
        SliceIndexError {
            _axis: PhantomData,
            t_index: self.t_index,
            range: self.range.start..self.range.end,
            end: self.end,
        }
    }
}

impl<A: Axis> SliceIndexError<A> {
    /// Create a new error from an index, a range and an endpoint.
    pub fn new(t_index: i32, range: Range<i32>, end: Endpoint<A::T>) -> (r: Self)
        ensures
            r.t_index == t_index,
            r.range == range,
            r.end == end,
    {
        SliceIndexError { _axis: PhantomData, end, t_index, range }
    }
}

impl<A: Axis> SliceIndex<A> {
    /// The start of the in-bound range.
    pub open spec fn spec_inbound_start(&self) -> i32 {
        if self.range.start > 0 {
            self.range.start
        } else {
            0
        }
    }

    /// The end of the in-bound range.
    pub open spec fn spec_inbound_end(&self) -> i32 {
        if self.range.end < self.range_lmt {
            self.range.end
        } else {
            self.range_lmt
        }
    }

    /// The number of out-of-bound elements below the lower bound.
    pub open spec fn spec_padding_lower(&self) -> int {
        if self.range.start < 0 {
            -self.range.start
        } else {
            0
        }
    }

    /// The number of out-of-bound elements beyond the upper bound.
    pub open spec fn spec_padding_upper(&self) -> int {
        if self.range_lmt - self.range.end < 0 {
            self.range.end - self.range_lmt
        } else {
            0
        }
    }

    /// `try_new` accepts the index and range for the given map size.
    pub open spec fn spec_in_bounds(t_index: i32, range: Range<i32>, map_size: AxisVec<usize>) -> bool {
        &&& t_index >= 0
        &&& t_index < map_size.spec_get(A::spec_dyn())
        &&& spec_intersects(range, 0..(map_size.spec_get(A::spec_dyn().spec_t()) as i32))
    }

    /// Create a new `SliceIndex` from the given variables. Returns an error if the index is out of
    /// bounds on axis `A` or no element of the range is in bounds on the transpose axis.
    pub fn try_new(t_index: i32, range: Range<i32>, end: Endpoint<A::T>, map_size: AxisVec<usize>) -> (r:
        Result<Self, SliceIndexError<A>>)
        ensures
            r is Ok <==> Self::spec_in_bounds(t_index, range, map_size),
            r matches Ok(idx) ==> idx.t_index == t_index && idx.range == range && idx.end == end
                && idx.range_lmt == map_size.spec_get(A::spec_dyn().spec_t()) as i32,
            r matches Err(e) ==> e.t_index == t_index && e.range == range && e.end == end,
    {
        proof {
            A::lemma_transpose();
        }
        let t = A::into_dyn().t();
        let limit = map_size.get_dyn(t) as i32;
        let len = map_size.get::<A>();
        let lmt_range = 0..limit;
        if t_index >= 0 && (t_index as usize) < len && range.intersects(&lmt_range) {
            Ok(SliceIndex { _axis: PhantomData, end, t_index: t_index as usize, range, range_lmt: limit })
        } else {
            Err(SliceIndexError::new(t_index, range, end))
        }
    }

    /// Create a new `SliceIndex` assuming the given index and range are at least partially
    /// in-bounds.
    pub fn new_unchecked(t_index: i32, range: Range<i32>, range_lmt: i32, end: Endpoint<A::T>) -> (r: Self)
        requires
            t_index >= 0,
        ensures
            r.t_index == t_index,
            r.range == range,
            r.range_lmt == range_lmt,
            r.end == end,
    {
        SliceIndex { _axis: PhantomData, end, t_index: t_index as usize, range, range_lmt }
    }

    /// Get the padding (number of out of bound elements) for each endpoint.
    pub fn padding(&self) -> (r: EndpointPair<A, i32>)
        requires
            self.range.start > i32::MIN,
            i32::MIN < self.range_lmt - self.range.end <= i32::MAX,
        ensures
            r.lower == self.spec_padding_lower(),
            r.upper == self.spec_padding_upper(),
    {
        let neg_pad = if self.range.start < 0 {
            -self.range.start
        } else {
            0
        };
        let diff = self.range_lmt - self.range.end;
        let pos_pad = if diff < 0 {
            -diff
        } else {
            0
        };
        EndpointPair::new(neg_pad, pos_pad)
    }

    /// Get the slice starting index: the first element of the range on the transpose axis, and
    /// the index on axis `A` (the next index for an upper endpoint).
    pub fn start_index(&self) -> (r: AxisVec<i32>)
        requires
            self.t_index < i32::MAX,
        ensures
            r == AxisVec::<i32>::spec_new_mapped(
                A::spec_dyn(),
                (if self.end.bound == EndpointBound::Lower {
                    self.t_index
                } else {
                    (self.t_index + 1) as usize
                }) as i32,
                self.range.start,
            ),
    {
        match self.end.bound {
            EndpointBound::Lower => AxisVec::new_mapped::<A>(self.t_index as i32, self.range.start),
            EndpointBound::Upper => AxisVec::new_mapped::<A>(
                (self.t_index + 1) as i32,
                self.range.start,
            ),
        }
    }

    /// Get the index on axis `A`.
    pub fn t_index(&self) -> (r: usize)
        ensures
            r == self.t_index,
    {
        self.t_index
    }

    /// Return the slice range.
    pub fn range(&self) -> (r: Range<i32>)
        ensures
            r == self.range,
    {
        self.range.start..self.range.end
    }

    /// Return the inbound range start.
    pub fn inbound_range_start(&self) -> (r: i32)
        ensures
            r == self.spec_inbound_start(),
    {
        if self.range.start > 0 {
            self.range.start
        } else {
            0
        }
    }

    /// Return the inbound range end.
    pub fn inbound_range_end(&self) -> (r: i32)
        ensures
            r == self.spec_inbound_end(),
    {
        if self.range.end < self.range_lmt {
            self.range.end
        } else {
            self.range_lmt
        }
    }

    /// Return the slice range cropped to in-bounds.
    pub fn range_cropped(&self) -> (r: Range<usize>)
        ensures
            r.start == self.spec_inbound_start() as usize,
            r.end == self.spec_inbound_end() as usize,
    {
        self.inbound_range_start() as usize..self.inbound_range_end() as usize
    }

    /// Returns the number of tiles in the slice (including out-of-bound tiles).
    pub fn len(&self) -> (r: usize)
        ensures
            r == spec_range_len(self.range),
    {
        range_len(&self.range)
    }

    /// Returns the number of in-bound tiles in the slice.
    pub fn len_cropped(&self) -> (r: usize)
        ensures
            r == spec_range_len(self.spec_inbound_start()..self.spec_inbound_end()),
    {
        let r = self.inbound_range_start()..self.inbound_range_end();
        range_len(&r)
    }
}

/// The padding on both endpoints and the in-bound elements partition the elements of a slice
/// whose range is ordered and holds an element within the bound `0..range_lmt`.
pub proof fn lemma_padding_partition<A: Axis>(index: SliceIndex<A>)
    requires
        index.range.start <= index.range.end,
        0 <= index.range_lmt,
        spec_intersects(index.range, 0..index.range_lmt),
    ensures
        index.spec_padding_lower() + spec_range_len(
            index.spec_inbound_start()..index.spec_inbound_end(),
        ) + index.spec_padding_upper() == spec_range_len(index.range),
        0 <= index.spec_inbound_start() <= index.spec_inbound_end() <= index.range_lmt,
{
}

} // verus!
