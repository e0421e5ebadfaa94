use core::ops::Range;

use vstd::prelude::*;

use crate::plane::axis::AxisValue;
use crate::plane::endpoint::{Endpoint, EndpointBound};

verus! {

/// An optional bound as an optional endpoint of axis `A`.
pub open spec fn spec_endpoint_opt<A>(b: Option<EndpointBound>) -> Option<Endpoint<A>> {
    match b {
        Some(b) => Some(Endpoint::<A>::spec_of(b)),
        None => None,
    }
}

/// The bound of the single endpoint of `b` beyond that of `a` (the other one level with or
/// inside it), if any.
pub open spec fn spec_greater_bound(a: Range<i32>, b: Range<i32>) -> Option<EndpointBound> {
    if a.start < b.start && a.end <= b.end {
        Some(EndpointBound::Lower)
    } else if a.start >= b.start && a.end > b.end {
        Some(EndpointBound::Upper)
    } else {
        None
    }
}

/// The bound of the single endpoint of `b` inside that of `a` (the other one level with or
/// beyond it), if any.
pub open spec fn spec_lesser_bound(a: Range<i32>, b: Range<i32>) -> Option<EndpointBound> {
    if a.start > b.start && a.end >= b.end {
        Some(EndpointBound::Lower)
    } else if a.start <= b.start && a.end < b.end {
        Some(EndpointBound::Upper)
    } else {
        None
    }
}

/// The range with the endpoint of bound `b` moved outward by one.
pub open spec fn spec_incr_range(r: Range<i32>, b: EndpointBound) -> Range<i32> {
    match b {
        EndpointBound::Lower => (r.start - 1) as i32..r.end,
        EndpointBound::Upper => r.start..(r.end + 1) as i32,
    }
}

/// The range with the endpoint of bound `b` moved inward by one.
pub open spec fn spec_decr_range(r: Range<i32>, b: EndpointBound) -> Range<i32> {
    match b {
        EndpointBound::Lower => (r.start + 1) as i32..r.end,
        EndpointBound::Upper => r.start..(r.end - 1) as i32,
    }
}

/// Two half-open ranges share at least one element.
pub open spec fn spec_intersects(a: Range<i32>, b: Range<i32>) -> bool {
    a.start < b.end && a.end > b.start
}

/// # EndpointRange
///
/// [`Endpoint`] mapping and comparison operations for ranges.
pub trait EndpointRange<T>: Sized {
    /// The inclusive range from `a` to `b` (mapped to `bound`) can be formed without overflow.
    spec fn spec_incl_ok(a: T, b: T, bound: EndpointBound) -> bool;

    /// The given endpoint can be moved by one without overflow.
    spec fn spec_step_ok(&self, bound: EndpointBound) -> bool;

    /// Create an endpoint range from `lower` inclusive and `upper` exclusive elements, mapping
    /// the first and second element to the given endpoint and its inverse respectively.
    fn new_mapped<A: AxisValue>(a: T, b: T, end: Endpoint<A>) -> Self;

    /// Create an endpoint range from `lower` inclusive and `upper` inclusive elements, mapping
    /// the first and second element to the given endpoint and its inverse respectively.
    fn new_mapped_incl<A: AxisValue>(a: T, b: T, end: Endpoint<A>) -> Self
        requires
            Self::spec_incl_ok(a, b, end.bound),
    ;

    /// Get a reference to the lower value.
    fn lower(&self) -> &T;

    /// Get a reference to the upper value.
    fn upper(&self) -> &T;

    /// Move the given endpoint outward by one.
    fn incr<A: AxisValue>(&mut self, end: Endpoint<A>)
        requires
            old(self).spec_step_ok(end.bound),
    ;

    /// Move the given endpoint inward by one.
    fn decr<A: AxisValue>(&mut self, end: Endpoint<A>)
        requires
            old(self).spec_step_ok(end.bound),
    ;

    /// Get the endpoint of the single value not equal to that of `other`. Returns `None` where
    /// both values are equal, or both values differ.
    fn endpoint_diff<A: AxisValue>(&self, other: &Self) -> Option<Endpoint<A>>;

    /// Returns `true` if any part of `self` intersects that of `other`.
    fn intersects(&self, other: &Self) -> bool;

    /// Get the endpoint of `other` greater than that of `self`. Returns `None` if no single
    /// endpoint is greater than `self`.
    fn greater_endpoint<A: AxisValue>(&self, other: &Self) -> Option<Endpoint<A>>;

    /// Get the first endpoint of `other` greater than that of `self`. Returns `None` if no
    /// endpoint is greater than `self`.
    fn first_greater_endpoint<A: AxisValue>(&self, other: &Self) -> Option<Endpoint<A>>;

    /// Get the endpoint of `other` lesser than that of `self`. Returns `None` if no single
    /// endpoint is lesser than `self`.
    fn lesser_endpoint<A: AxisValue>(&self, other: &Self) -> Option<Endpoint<A>>;

    /// Get the first endpoint of `other` lesser than that of `self`. Returns `None` if no
    /// endpoint is lesser than `self`.
    fn first_lesser_endpoint<A: AxisValue>(&self, other: &Self) -> Option<Endpoint<A>>;
}

impl EndpointRange<i32> for Range<i32> {
    open spec fn spec_incl_ok(a: i32, b: i32, bound: EndpointBound) -> bool {
        match bound {
            EndpointBound::Lower => b < i32::MAX,
            EndpointBound::Upper => a < i32::MAX,
        }
    }

    open spec fn spec_step_ok(&self, bound: EndpointBound) -> bool {
        match bound {
            EndpointBound::Lower => i32::MIN < self.start < i32::MAX,
            EndpointBound::Upper => i32::MIN < self.end < i32::MAX,
        }
    }

    fn new_mapped<A: AxisValue>(a: i32, b: i32, end: Endpoint<A>) -> (r: Self)
        ensures
            r == (match end.bound {
                EndpointBound::Lower => a..b,
                EndpointBound::Upper => b..a,
            }),
    {
        match end.bound {
            EndpointBound::Lower => a..b,
            EndpointBound::Upper => b..a,
        }
    }

    fn new_mapped_incl<A: AxisValue>(a: i32, b: i32, end: Endpoint<A>) -> (r: Self)
        ensures
            r == (match end.bound {
                EndpointBound::Lower => a..(b + 1) as i32,
                EndpointBound::Upper => b..(a + 1) as i32,
            }),
    {
        match end.bound {
            EndpointBound::Lower => a..b + 1,
            EndpointBound::Upper => b..a + 1,
        }
    }

    fn lower(&self) -> (r: &i32)
        ensures
            *r == self.start,
    {
        &self.start
    }

    fn upper(&self) -> (r: &i32)
        ensures
            *r == self.end,
    {
        &self.end
    }

    fn incr<A: AxisValue>(&mut self, end: Endpoint<A>)
        ensures
            *final(self) == spec_incr_range(*old(self), end.bound),
    {
        match end.bound {
            EndpointBound::Lower => self.start = self.start - 1,
            EndpointBound::Upper => self.end = self.end + 1,
        }
    }

    fn decr<A: AxisValue>(&mut self, end: Endpoint<A>)
        ensures
            *final(self) == spec_decr_range(*old(self), end.bound),
    {
        match end.bound {
            EndpointBound::Lower => self.start = self.start + 1,
            EndpointBound::Upper => self.end = self.end - 1,
        }
    }

    fn endpoint_diff<A: AxisValue>(&self, other: &Self) -> (r: Option<Endpoint<A>>)
        ensures
            r == spec_endpoint_opt::<A>(
                if self.start == other.start && self.end != other.end {
                    Some(EndpointBound::Lower)
                } else if self.start != other.start && self.end == other.end {
                    Some(EndpointBound::Upper)
                } else {
                    None
                },
            ),
    {
        match (self.start == other.start, self.end == other.end) {
            (true, false) => Some(Endpoint::LOWER()),
            (false, true) => Some(Endpoint::UPPER()),
            _ => None,
        }
    }

    fn intersects(&self, other: &Self) -> (r: bool)
        ensures
            r == spec_intersects(*self, *other),
    {
        self.start < other.end && self.end > other.start
    }

    fn greater_endpoint<A: AxisValue>(&self, other: &Self) -> (r: Option<Endpoint<A>>)
        ensures
            r == spec_endpoint_opt::<A>(spec_greater_bound(*self, *other)),
    {
        if self.start < other.start && self.end <= other.end {
            Some(Endpoint::LOWER())
        } else if self.start >= other.start && self.end > other.end {
            Some(Endpoint::UPPER())
        } else {
            None
        }
    }

    fn first_greater_endpoint<A: AxisValue>(&self, other: &Self) -> (r: Option<Endpoint<A>>)
        ensures
            r == spec_endpoint_opt::<A>(
                if self.start > other.start {
                    Some(EndpointBound::Lower)
                } else if self.end < other.end {
                    Some(EndpointBound::Upper)
                } else {
                    None
                },
            ),
    {
        if self.start > other.start {
            Some(Endpoint::LOWER())
        } else if self.end < other.end {
            Some(Endpoint::UPPER())
        } else {
            None
        }
    }

    fn lesser_endpoint<A: AxisValue>(&self, other: &Self) -> (r: Option<Endpoint<A>>)
        ensures
            r == spec_endpoint_opt::<A>(spec_lesser_bound(*self, *other)),
    {
        if self.start > other.start && self.end >= other.end {
            Some(Endpoint::LOWER())
        } else if self.start <= other.start && self.end < other.end {
            Some(Endpoint::UPPER())
        } else {
            None
        }
    }

    fn first_lesser_endpoint<A: AxisValue>(&self, other: &Self) -> (r: Option<Endpoint<A>>)
        ensures
            r == spec_endpoint_opt::<A>(
                if self.start < other.start {
                    Some(EndpointBound::Lower)
                } else if self.end > other.end {
                    Some(EndpointBound::Upper)
                } else {
                    None
                },
            ),
    {
        if self.start < other.start {
            Some(Endpoint::LOWER())
        } else if self.end > other.end {
            Some(Endpoint::UPPER())
        } else {
            None
        }
    }
}

/// Moving an endpoint inward undoes moving it outward (and the reverse); moving it outward
/// adds one element.
pub proof fn lemma_incr_decr_range_inverse(r: Range<i32>, b: EndpointBound)
    requires
        r.spec_step_ok(b),
    ensures
        spec_decr_range(spec_incr_range(r, b), b) == r,
        spec_incr_range(spec_decr_range(r, b), b) == r,
        spec_range_len_i(spec_incr_range(r, b)) == spec_range_len_i(r) + 1,
{
}

/// The signed number of elements of a half-open range.
pub open spec fn spec_range_len_i(r: Range<i32>) -> int {
    r.end - r.start
}

/// Intersection of ranges is symmetric.
pub proof fn lemma_intersects_symmetric(a: Range<i32>, b: Range<i32>)
    ensures
        spec_intersects(a, b) == spec_intersects(b, a),
{
}

/// The endpoint of `b` greater than that of `a` is the endpoint of `a` lesser than that of `b`.
pub proof fn lemma_greater_is_reversed_lesser(a: Range<i32>, b: Range<i32>)
    ensures
        spec_greater_bound(a, b) == spec_lesser_bound(b, a),
{
}

/// A range never has a greater or lesser endpoint than itself, nor a differing endpoint.
pub proof fn lemma_no_endpoint_against_itself(a: Range<i32>)
    ensures
        spec_greater_bound(a, a).is_none(),
        spec_lesser_bound(a, a).is_none(),
{
}

} // verus!
