use core::cmp::Ordering;
use core::marker::PhantomData;
use core::ops::{Add, Sub};

use vstd::prelude::*;
use vstd::std_specs::cmp::{OrdSpec, PartialOrdIs, PartialOrdSpec};
use vstd::std_specs::ops::{AddSpec, SubSpec};

use crate::plane::axis::{AxisValue, AxisX, AxisY, DynAxis};
use crate::plane::axis_mask::AxisMask;

verus! {

/// # EndpointBound
///
/// Differentiates between a lower and upper endpoint on an axis.
#[derive(Debug, Clone, Copy, PartialEq, Eq, PartialOrd, Ord, Structural)]
pub enum EndpointBound {
    /// A lower or negative of two directions, sides, bounds or endpoints.
    Lower,
    /// An upper or positive of two directions, sides, bounds or endpoints.
    Upper,
}

impl EndpointBound {
    /// The bit representation of [`EndpointBound::Lower`].
    pub const LOW_REPR: u8 = 0u8;
    /// The bit representation of [`EndpointBound::Upper`].
    pub const UPP_REPR: u8 = 1u8;

    /// The bit of a bound: `0` for lower, `1` for upper.
    pub open spec fn spec_bits(self) -> u8 {
        match self {
            EndpointBound::Lower => 0,
            EndpointBound::Upper => 1,
        }
    }

    /// The opposite bound.
    pub open spec fn spec_invert(self) -> EndpointBound {
        match self {
            EndpointBound::Lower => EndpointBound::Upper,
            EndpointBound::Upper => EndpointBound::Lower,
        }
    }

    /// `a` is strictly beyond `b` toward this bound.
    pub open spec fn spec_gt<T: PartialOrd>(self, a: T, b: T) -> bool {
        match self {
            EndpointBound::Lower => a.is_lt(&b),
            EndpointBound::Upper => a.is_gt(&b),
        }
    }

    /// `a` is beyond or level with `b` toward this bound.
    pub open spec fn spec_gte<T: PartialOrd>(self, a: T, b: T) -> bool {
        match self {
            EndpointBound::Lower => a.is_le(&b),
            EndpointBound::Upper => a.is_ge(&b),
        }
    }

    /// Return the `EndpointBound` as a `u8`.
    pub fn into_bits(self) -> (r: u8)
        ensures
            r == self.spec_bits(),
    {
        match self {
            EndpointBound::Lower => 0,
            EndpointBound::Upper => 1,
        }
    }

    /// Flip the `EndpointBound`.
    pub fn invert(self) -> (r: Self)
        ensures
            r == self.spec_invert(),
    {
        match self {
            EndpointBound::Upper => EndpointBound::Lower,
            EndpointBound::Lower => EndpointBound::Upper,
        }
    }

    /// Returns `true` if the variant is `EndpointBound::Lower`.
    pub fn is_lower(self) -> (r: bool)
        ensures
            r == (self == EndpointBound::Lower),
    {
        self.into_bits() == EndpointBound::LOW_REPR
    }

    /// Returns `true` if the variant is `EndpointBound::Upper`.
    pub fn is_upper(self) -> (r: bool)
        ensures
            r == (self == EndpointBound::Upper),
    {
        self.into_bits() == EndpointBound::UPP_REPR
    }

    /// Test if variable `a` is greater than `b` for the given `EndpointBound` orientation.
    pub fn gt<T: Ord>(&self, a: T, b: T) -> (r: bool)
        ensures
            T::obeys_partial_cmp_spec() ==> r == self.spec_gt(a, b),
    {
        match self {
            EndpointBound::Lower => a.lt(&b),
            EndpointBound::Upper => a.gt(&b),
        }
    }

    /// Test if variable `a` is greater than or equal to `b` for the given `EndpointBound`
    /// orientation.
    pub fn gte<T: Ord>(&self, a: T, b: T) -> (r: bool)
        ensures
            T::obeys_partial_cmp_spec() ==> r == self.spec_gte(a, b),
    {
        match self {
            EndpointBound::Lower => a.le(&b),
            EndpointBound::Upper => a.ge(&b),
        }
    }

    /// Test if variable `a` is greater than `b` for the given `EndpointBound` orientation.
    pub fn partial_gt<T: PartialOrd>(&self, a: T, b: &T) -> (r: bool)
        ensures
            T::obeys_partial_cmp_spec() ==> r == self.spec_gt(a, *b),
    {
        match self {
            EndpointBound::Lower => a.lt(b),
            EndpointBound::Upper => a.gt(b),
        }
    }

    /// Test if variable `a` is greater than or equal to `b` for the given `EndpointBound`
    /// orientation.
    pub fn partial_gte<T: PartialOrd>(&self, a: T, b: &T) -> (r: bool)
        ensures
            T::obeys_partial_cmp_spec() ==> r == self.spec_gte(a, *b),
    {
        match self {
            EndpointBound::Lower => a.le(b),
            EndpointBound::Upper => a.ge(b),
        }
    }

    /// Returns the orientated [`Ordering`] of `a` in relation to `b`.
    pub fn ordering<T: Ord>(&self, a: T, b: T) -> (r: Ordering)
        ensures
            T::obeys_cmp_spec() ==> r == (match self {
                EndpointBound::Lower => b.cmp_spec(&a),
                EndpointBound::Upper => a.cmp_spec(&b),
            }),
    {
        match self {
            EndpointBound::Lower => b.cmp(&a),
            EndpointBound::Upper => a.cmp(&b),
        }
    }

    /// Returns the orientated [`Ordering`] of `a` in relation to `b` using [`PartialOrd`].
    pub fn partial_ordering<T: PartialOrd>(&self, a: T, b: T) -> (r: Option<Ordering>)
        ensures
            T::obeys_partial_cmp_spec() ==> r == (match self {
                EndpointBound::Lower => b.partial_cmp_spec(&a),
                EndpointBound::Upper => a.partial_cmp_spec(&b),
            }),
    {
        match self {
            EndpointBound::Lower => b.partial_cmp(&a),
            EndpointBound::Upper => a.partial_cmp(&b),
        }
    }

    /// Compares and returns the minimum of two values in relation to the `EndpointBound`
    /// orientation.
    pub fn min<T: Ord>(&self, a: T, b: T) -> (r: T)
        ensures
            T::obeys_cmp_spec() ==> r == (match self {
                EndpointBound::Lower => if b.cmp_spec(&a) == Ordering::Less { a } else { b },
                EndpointBound::Upper => if b.cmp_spec(&a) == Ordering::Less { b } else { a },
            }),
    {
        match self {
            EndpointBound::Lower => a.max(b),
            EndpointBound::Upper => a.min(b),
        }
    }

    /// Compares and returns the maximum of two values in relation to `EndpointBound`
    /// orientation.
    pub fn max<T: Ord>(&self, a: T, b: T) -> (r: T)
        ensures
            T::obeys_cmp_spec() ==> r == (match self {
                EndpointBound::Lower => if b.cmp_spec(&a) == Ordering::Less { b } else { a },
                EndpointBound::Upper => if b.cmp_spec(&a) == Ordering::Less { a } else { b },
            }),
    {
        match self {
            EndpointBound::Lower => a.min(b),
            EndpointBound::Upper => a.max(b),
        }
    }

    /// Compares and returns the minimum of two values in relation to the `EndpointBound`
    /// orientation using [`PartialOrd`].
    pub fn partial_min<T: PartialOrd + Copy>(&self, a: T, b: T) -> (r: T)
        ensures
            T::obeys_partial_cmp_spec() ==> r == (if self.spec_gt(a, b) { b } else { a }),
    {
        if self.partial_gt(a, &b) {
            b
        } else {
            a
        }
    }

    /// Compares and returns the maximum of two values in relation to `EndpointBound`
    /// orientation using [`PartialOrd`].
    pub fn partial_max<T: PartialOrd + Copy>(&self, a: T, b: T) -> (r: T)
        ensures
            T::obeys_partial_cmp_spec() ==> r == (if self.spec_invert().spec_gt(a, b) {
                b
            } else {
                a
            }),
    {
        self.invert().partial_min(a, b)
    }

    /// The value one greater than `value` in relation to this orientation.
    pub open spec fn spec_incr(self, value: int) -> int {
        match self {
            EndpointBound::Lower => value - 1,
            EndpointBound::Upper => value + 1,
        }
    }

    /// The value one lesser than `value` in relation to this orientation.
    pub open spec fn spec_decr(self, value: int) -> int {
        match self {
            EndpointBound::Lower => value + 1,
            EndpointBound::Upper => value - 1,
        }
    }

    /// Increment the index `value` by one, giving a greater index in relation to the
    /// `EndpointBound` orientation.
    pub fn incr(&self, value: i32) -> (r: i32)
        requires
            i32::MIN <= self.spec_incr(value as int) <= i32::MAX,
        ensures
            r == self.spec_incr(value as int),
    {
        match self {
            EndpointBound::Lower => value - 1,
            EndpointBound::Upper => value + 1,
        }
    }

    /// Increment `value` by `n`, giving a greater value in relation to the `EndpointBound`
    /// orientation.
    pub fn incr_n<T: Add<T, Output = T> + Sub<T, Output = T>>(&self, value: T, n: T) -> (r: T)
        requires
            (match *self {
                EndpointBound::Lower => value.sub_req(n),
                EndpointBound::Upper => value.add_req(n),
            }),
        ensures
            (match *self {
                EndpointBound::Lower => T::obeys_sub_spec() ==> r == value.sub_spec(n),
                EndpointBound::Upper => T::obeys_add_spec() ==> r == value.add_spec(n),
            }),
    {
        match self {
            EndpointBound::Lower => value.sub(n),
            EndpointBound::Upper => value.add(n),
        }
    }

    /// Decrement the index `value` by one, giving a lesser index in relation to the
    /// `EndpointBound` orientation.
    pub fn decr(&self, value: i32) -> (r: i32)
        requires
            i32::MIN <= self.spec_decr(value as int) <= i32::MAX,
        ensures
            r == self.spec_decr(value as int),
    {
        match self {
            EndpointBound::Lower => value + 1,
            EndpointBound::Upper => value - 1,
        }
    }

    /// Decrement `value` by `n`, giving a lesser value in relation to the `EndpointBound`
    /// orientation.
    pub fn decr_n<T: Add<T, Output = T> + Sub<T, Output = T>>(&self, value: T, n: T) -> (r: T)
        requires
            (match *self {
                EndpointBound::Lower => value.add_req(n),
                EndpointBound::Upper => value.sub_req(n),
            }),
        ensures
            (match *self {
                EndpointBound::Lower => T::obeys_add_spec() ==> r == value.add_spec(n),
                EndpointBound::Upper => T::obeys_sub_spec() ==> r == value.sub_spec(n),
            }),
    {
        match self {
            EndpointBound::Lower => value.add(n),
            EndpointBound::Upper => value.sub(n),
        }
    }
}

/// # Endpoint
///
/// Describes a direction on an axis: the combination of an axis marker `A` and an
/// [`EndpointBound`]. Numerical operations follow numerical ordering for the upper bound and
/// reversed ordering for the lower bound.
#[derive(Debug, PartialEq, Eq, Structural)]
pub struct Endpoint<A> {
    /// The endpoint axis.
    pub axis: PhantomData<A>,
    /// The endpoint bound.
    pub bound: EndpointBound,
}

impl<A> Clone for Endpoint<A> {
    fn clone(&self) -> (r: Self)
        ensures
            r == *self,
    {
        Endpoint { axis: PhantomData, bound: self.bound }
    }
}

impl<A> Copy for Endpoint<A> {

}

#[allow(non_snake_case)]
impl Endpoint<AxisX> {
    /// A left endpoint representation.
    pub fn LEFT() -> (r: Endpoint<AxisX>)
        ensures
            r.bound == EndpointBound::Lower,
    {
        Endpoint { axis: PhantomData, bound: EndpointBound::Lower }
    }

    /// A right endpoint representation.
    pub fn RIGHT() -> (r: Endpoint<AxisX>)
        ensures
            r.bound == EndpointBound::Upper,
    {
        Endpoint { axis: PhantomData, bound: EndpointBound::Upper }
    }
}

#[allow(non_snake_case)]
impl Endpoint<AxisY> {
    /// A top endpoint representation.
    pub fn TOP() -> (r: Endpoint<AxisY>)
        ensures
            r.bound == EndpointBound::Lower,
    {
        Endpoint { axis: PhantomData, bound: EndpointBound::Lower }
    }

    /// A bottom endpoint representation.
    pub fn BOTTOM() -> (r: Endpoint<AxisY>)
        ensures
            r.bound == EndpointBound::Upper,
    {
        Endpoint { axis: PhantomData, bound: EndpointBound::Upper }
    }
}

#[allow(non_snake_case)]
impl<A> Endpoint<A> {
    /// The lower endpoint for the given axis `A`.
    pub fn LOWER() -> (r: Self)
        ensures
            r.bound == EndpointBound::Lower,
    {
        Endpoint { axis: PhantomData, bound: EndpointBound::Lower }
    }

    /// The upper endpoint for the given axis `A`.
    pub fn UPPER() -> (r: Self)
        ensures
            r.bound == EndpointBound::Upper,
    {
        Endpoint { axis: PhantomData, bound: EndpointBound::Upper }
    }

    /// An endpoint of the given bound.
    pub open spec fn spec_of(bound: EndpointBound) -> Self {
        Endpoint { axis: PhantomData, bound }
    }

    /// Create an `Endpoint` from an [`EndpointBound`].
    pub fn from_bound(bound: EndpointBound) -> (r: Self)
        ensures
            r == Self::spec_of(bound),
    {
        Endpoint { axis: PhantomData, bound }
    }

    /// Return the inner [`EndpointBound`].
    pub fn bound(self) -> (r: EndpointBound)
        ensures
            r == self.bound,
    {
        self.bound
    }

    /// Flip the [`EndpointBound`].
    pub fn invert(self) -> (r: Self)
        ensures
            r.bound == self.bound.spec_invert(),
    {
        Endpoint { axis: PhantomData, bound: self.bound.invert() }
    }

    /// Return the `Endpoint` as a [`AxisMask`].
    pub fn into_axismask(self) -> (r: AxisMask)
        where
            A: AxisValue,
        ensures
            r.0 == AxisMask::spec_end_bit(A::spec_dyn(), self.bound),
    {
        AxisMask::from_end(self)
    }

    /// Cast the `Endpoint` axis marker to another type.
    pub fn cast<B>(self) -> (r: Endpoint<B>)
        ensures
            r.bound == self.bound,
    {
        Endpoint { axis: PhantomData, bound: self.bound }
    }

    /// Return an `Endpoint` from the given [`Ordering`].
    pub fn from_ordering(ord: Ordering) -> (r: Option<Endpoint<A>>)
        ensures
            r == (match ord {
                Ordering::Less => Some(Self::spec_of(EndpointBound::Lower)),
                Ordering::Equal => None,
                Ordering::Greater => Some(Self::spec_of(EndpointBound::Upper)),
            }),
    {
        match ord {
            Ordering::Less => Some(Endpoint::LOWER()),
            Ordering::Equal => None,
            Ordering::Greater => Some(Endpoint::UPPER()),
        }
    }

    /// Return the `Endpoint` of `a` in relation to `b`. Returns `None` if both values are equal.
    pub fn from_cmp<T: Ord>(a: T, b: T) -> (r: Option<Endpoint<A>>)
        ensures
            T::obeys_cmp_spec() ==> r == (match a.cmp_spec(&b) {
                Ordering::Less => Some(Self::spec_of(EndpointBound::Lower)),
                Ordering::Equal => None,
                Ordering::Greater => Some(Self::spec_of(EndpointBound::Upper)),
            }),
    {
        match a.cmp(&b) {
            Ordering::Less => Some(Endpoint::LOWER()),
            Ordering::Equal => None,
            Ordering::Greater => Some(Endpoint::UPPER()),
        }
    }

    /// Return the `Endpoint` of `a` in relation to `b`, where the values differ.
    pub fn from_cmp_unchecked<T: Ord>(a: T, b: T) -> (r: Endpoint<A>)
        requires
            T::obeys_cmp_spec(),
            a.cmp_spec(&b) != Ordering::Equal,
        ensures
            r.bound == (if a.cmp_spec(&b) == Ordering::Less {
                EndpointBound::Lower
            } else {
                EndpointBound::Upper
            }),
    {
        match a.cmp(&b) {
            Ordering::Less => Endpoint::LOWER(),
            Ordering::Equal => Endpoint::UPPER(),
            Ordering::Greater => Endpoint::UPPER(),
        }
    }

    /// Return the `Endpoint` of `a` in relation to `b`. Returns `None` if values are either equal
    /// or cannot be compared.
    pub fn from_partial_cmp<T: PartialOrd>(a: T, b: T) -> (r: Option<Endpoint<A>>)
        ensures
            T::obeys_partial_cmp_spec() ==> r == (match a.partial_cmp_spec(&b) {
                Some(Ordering::Less) => Some(Self::spec_of(EndpointBound::Lower)),
                Some(Ordering::Greater) => Some(Self::spec_of(EndpointBound::Upper)),
                _ => None,
            }),
    {
        match a.partial_cmp(&b) {
            Some(Ordering::Less) => Some(Endpoint::LOWER()),
            Some(Ordering::Greater) => Some(Endpoint::UPPER()),
            _ => None,
        }
    }

    /// Return the `Endpoint` of `b` in relation to `a` (the upper endpoint where `b` is greater),
    /// where the values are ordered and differ.
    pub fn from_partial_cmp_unchecked<T: PartialOrd>(a: T, b: T) -> (r: Endpoint<A>)
        requires
            T::obeys_partial_cmp_spec(),
            a.partial_cmp_spec(&b) matches Some(o) && o != Ordering::Equal,
        ensures
            r.bound == (if a.partial_cmp_spec(&b) == Some(Ordering::Less) {
                EndpointBound::Upper
            } else {
                EndpointBound::Lower
            }),
    {
        match a.partial_cmp(&b) {
            Some(Ordering::Less) => Endpoint::UPPER(),
            _ => Endpoint::LOWER(),
        }
    }
}

/// Decrementing undoes incrementing (and the reverse), and incrementing toward a bound is
/// decrementing toward its inverse.
pub proof fn lemma_incr_decr_inverse(b: EndpointBound, value: int)
    ensures
        b.spec_decr(b.spec_incr(value)) == value,
        b.spec_incr(b.spec_decr(value)) == value,
        b.spec_incr(value) == b.spec_invert().spec_decr(value),
{
}

/// Inverting a bound twice gives the bound back, and never gives the same bound.
pub proof fn lemma_invert_involutive(b: EndpointBound)
    ensures
        b.spec_invert().spec_invert() == b,
        b.spec_invert() != b,
{
}

} // verus!
