use core::marker::PhantomData;
use core::ops::Add;

use vstd::prelude::*;
use vstd::std_specs::convert::FromSpecImpl;
use vstd::std_specs::ops::AddSpec;

use crate::plane::endpoint::{Endpoint, EndpointBound};

verus! {

/// # EndpointPair
///
/// Two variables associated with the two opposing [`Endpoint`]s of axis `A`.
#[derive(Debug, PartialEq, Eq, Structural)]
pub struct EndpointPair<A, T> {
    pub axis: PhantomData<A>,
    pub lower: T,
    pub upper: T,
}

impl<A, T: Clone> Clone for EndpointPair<A, T> {
    fn clone(&self) -> (r: Self)
        ensures
            cloned(self.lower, r.lower),
            cloned(self.upper, r.upper),
    {
        EndpointPair { axis: PhantomData, lower: self.lower.clone(), upper: self.upper.clone() }
    }
}

impl<A, T: Copy> Copy for EndpointPair<A, T> {

}

impl<A, T> EndpointPair<A, T> {
    /// The value of a bound.
    pub open spec fn spec_get(self, b: EndpointBound) -> T {
        match b {
            EndpointBound::Lower => self.lower,
            EndpointBound::Upper => self.upper,
        }
    }

    /// The pair with the value of bound `b` replaced by `v`.
    pub open spec fn spec_set(self, b: EndpointBound, v: T) -> Self {
        match b {
            EndpointBound::Lower => EndpointPair { axis: PhantomData, lower: v, upper: self.upper },
            EndpointBound::Upper => EndpointPair { axis: PhantomData, lower: self.lower, upper: v },
        }
    }

    /// Create an `EndpointPair` from the given `lower` and `upper` variables.
    pub fn new(lower: T, upper: T) -> (r: Self)
        ensures
            r.lower == lower,
            r.upper == upper,
    {
        EndpointPair { axis: PhantomData, lower, upper }
    }

    /// Create an `EndpointPair` with `a` assigned to the given `end` and `b` to its inverse.
    pub fn new_mapped(a: T, b: T, end: Endpoint<A>) -> (r: Self)
        ensures
            r.spec_get(end.bound) == a,
            r.spec_get(end.bound.spec_invert()) == b,
    {
        match end.bound {
            EndpointBound::Lower => EndpointPair { axis: PhantomData, lower: a, upper: b },
            EndpointBound::Upper => EndpointPair { axis: PhantomData, lower: b, upper: a },
        }
    }

    /// Get the lower value.
    pub fn lower(&self) -> (r: T)
        where
            T: Copy,
        ensures
            r == self.lower,
    {
        self.lower
    }

    /// Get the upper value.
    pub fn upper(&self) -> (r: T)
        where
            T: Copy,
        ensures
            r == self.upper,
    {
        self.upper
    }

    /// Get the value assigned to the given `end`.
    pub fn get(&self, end: Endpoint<A>) -> (r: T)
        where
            T: Copy,
        ensures
            r == self.spec_get(end.bound),
    {
        match end.bound {
            EndpointBound::Lower => self.lower,
            EndpointBound::Upper => self.upper,
        }
    }

    /// Get a reference to the value assigned to the given `end`.
    pub fn get_ref(&self, end: Endpoint<A>) -> (r: &T)
        ensures
            *r == self.spec_get(end.bound),
    {
        match end.bound {
            EndpointBound::Lower => &self.lower,
            EndpointBound::Upper => &self.upper,
        }
    }

    /// Get a mutable reference to the value assigned to the given `end`.
    pub fn get_mut(&mut self, end: Endpoint<A>) -> (r: &mut T)
        ensures
            *r == old(self).spec_get(end.bound),
            *final(self) == old(self).spec_set(end.bound, *final(r)),
    {
        match end.bound {
            EndpointBound::Lower => &mut self.lower,
            EndpointBound::Upper => &mut self.upper,
        }
    }

    /// Return an `EndpointPair` with the function `F` applied to each element.
    pub fn map<F: Fn(T) -> U, U>(self, f: F) -> (r: EndpointPair<A, U>)
        requires
            call_requires(f, (self.lower,)),
            call_requires(f, (self.upper,)),
        ensures
            call_ensures(f, (self.lower,), r.lower),
            call_ensures(f, (self.upper,), r.upper),
    {
        let lower = f(self.lower);
        let upper = f(self.upper);
        EndpointPair { axis: PhantomData, lower, upper }
    }

    /// Returns `true` if any element satisfies the predicate `f`.
    pub fn any<F: Fn(&T) -> bool>(self, f: F) -> (r: bool)
        requires
            call_requires(f, (&self.lower,)),
            call_requires(f, (&self.upper,)),
        ensures
            r ==> call_ensures(f, (&self.lower,), true) || call_ensures(f, (&self.upper,), true),
            !r ==> call_ensures(f, (&self.lower,), false) && call_ensures(
                f,
                (&self.upper,),
                false,
            ),
    {
        f(&self.lower) || f(&self.upper)
    }

    /// Returns `true` if both elements satisfy the predicate `f`.
    pub fn all<F: Fn(&T) -> bool>(self, f: F) -> (r: bool)
        requires
            call_requires(f, (&self.lower,)),
            call_requires(f, (&self.upper,)),
        ensures
            r ==> call_ensures(f, (&self.lower,), true) && call_ensures(f, (&self.upper,), true),
            !r ==> call_ensures(f, (&self.lower,), false) || call_ensures(
                f,
                (&self.upper,),
                false,
            ),
    {
        f(&self.lower) && f(&self.upper)
    }

    /// Return the sum of the lower and upper variables.
    pub fn sum(&self) -> (r: T)
        where
            T: Copy + Add<T, Output = T>,
        requires
            self.lower.add_req(self.upper),
        ensures
            T::obeys_add_spec() ==> r == self.lower.add_spec(self.upper),
    {
        self.lower.add(self.upper)
    }
}

impl<A, T> From<(T, T)> for EndpointPair<A, T> {
    fn from(v: (T, T)) -> (r: Self) {
        EndpointPair { axis: PhantomData, lower: v.0, upper: v.1 }
    }
}

impl<A, T> FromSpecImpl<(T, T)> for EndpointPair<A, T> {
    open spec fn obeys_from_spec() -> bool {
        true
    }

    open spec fn from_spec(v: (T, T)) -> Self {
        EndpointPair { axis: PhantomData, lower: v.0, upper: v.1 }
    }
}

impl<A, T: Copy> From<[T; 2]> for EndpointPair<A, T> {
    fn from(v: [T; 2]) -> (r: Self) {
        EndpointPair { axis: PhantomData, lower: v[0], upper: v[1] }
    }
}

impl<A, T: Copy> FromSpecImpl<[T; 2]> for EndpointPair<A, T> {
    open spec fn obeys_from_spec() -> bool {
        true
    }

    open spec fn from_spec(v: [T; 2]) -> Self {
        EndpointPair { axis: PhantomData, lower: v@[0], upper: v@[1] }
    }
}

} // verus!
