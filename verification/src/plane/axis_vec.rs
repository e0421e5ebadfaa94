use core::ops::{Add, Mul};

use vstd::prelude::*;
use vstd::std_specs::convert::{FromSpecImpl, IntoSpec, TryIntoSpec};
use vstd::std_specs::ops::{AddSpec, MulSpec};

use crate::plane::axis::{AxisValue, DynAxis};

verus! {

/// # AxisVec
///
/// A two-dimensional vector of values `T` mapped to an axis index. Provides operations for
/// element access and mutation by either generic or dynamic axis ([`AxisValue`] or [`DynAxis`]
/// respectively).
#[derive(Debug, Clone, Copy, PartialEq, Eq, PartialOrd, Ord, Structural)]
pub struct AxisVec<T> {
    pub x: T,
    pub y: T,
}

impl<T> AxisVec<T> {
    /// The element of an axis.
    pub open spec fn spec_get(self, a: DynAxis) -> T {
        match a {
            DynAxis::X => self.x,
            DynAxis::Y => self.y,
        }
    }

    /// A vector with element `i` on axis `a` and `j` on its transpose.
    pub open spec fn spec_new_mapped(a: DynAxis, i: T, j: T) -> AxisVec<T> {
        match a {
            DynAxis::X => AxisVec { x: i, y: j },
            DynAxis::Y => AxisVec { x: j, y: i },
        }
    }

    /// The vector with the element of axis `a` replaced by `v`.
    pub open spec fn spec_set(self, a: DynAxis, v: T) -> AxisVec<T> {
        match a {
            DynAxis::X => AxisVec { x: v, y: self.y },
            DynAxis::Y => AxisVec { x: self.x, y: v },
        }
    }

    /// Create a new `AxisVec` of the given variables.
    pub fn new(x: T, y: T) -> (r: Self)
        ensures
            r.x == x,
            r.y == y,
    {
        AxisVec { x, y }
    }

    /// Create a new `AxisVec` setting both variables to the given `value`.
    pub fn fill(value: T) -> (r: Self)
        where
            T: Copy,
        ensures
            r.x == value,
            r.y == value,
    {
        AxisVec { x: value, y: value }
    }

    /// Get a copy of the value assigned to axis *x*.
    pub fn x(&self) -> (r: T)
        where
            T: Copy,
        ensures
            r == self.x,
    {
        self.x
    }

    /// Get a copy of the value assigned to axis *y*.
    pub fn y(&self) -> (r: T)
        where
            T: Copy,
        ensures
            r == self.y,
    {
        self.y
    }

    /// Get a reference to the value assigned to axis *x*.
    pub fn x_ref(&self) -> (r: &T)
        ensures
            *r == self.x,
    {
        &self.x
    }

    /// Get a reference to the value assigned to axis *y*.
    pub fn y_ref(&self) -> (r: &T)
        ensures
            *r == self.y,
    {
        &self.y
    }

    /// Get a mutable reference to the value assigned to axis *x*.
    pub fn x_mut(&mut self) -> (r: &mut T)
        ensures
            *r == old(self).x,
            *final(self) == (AxisVec { x: *final(r), y: old(self).y }),
    {
        &mut self.x
    }

    /// Get a mutable reference to the value assigned to axis *y*.
    pub fn y_mut(&mut self) -> (r: &mut T)
        ensures
            *r == old(self).y,
            *final(self) == (AxisVec { x: old(self).x, y: *final(r) }),
    {
        &mut self.y
    }

    /// Consume the `AxisVec`, returning the *x* and *y* variables as an array.
    pub fn take(self) -> (r: [T; 2])
        ensures
            r@ == seq![self.x, self.y],
    {
        [self.x, self.y]
    }

    /// Return the `AxisVec` as an array of the *x* and *y* variables respectively.
    pub fn into_array(self) -> (r: [T; 2])
        ensures
            r@ == seq![self.x, self.y],
    {
        [self.x, self.y]
    }

    /// Return a copy of the *x* and *y* variables as an array.
    pub fn as_array(&self) -> (r: [T; 2])
        where
            T: Copy,
        ensures
            r@ == seq![self.x, self.y],
    {
        [self.x, self.y]
    }

    /// Return the `AxisVec` as a tuple of the *x* and *y* variables respectively.
    pub fn split(self) -> (r: (T, T))
        ensures
            r == (self.x, self.y),
    {
        (self.x, self.y)
    }

    /// Return an `AxisVec` with the result of the function `F` applied to each element.
    pub fn map<F: Fn(T) -> U, U>(self, f: F) -> (r: AxisVec<U>)
        requires
            call_requires(f, (self.x,)),
            call_requires(f, (self.y,)),
        ensures
            call_ensures(f, (self.x,), r.x),
            call_ensures(f, (self.y,), r.y),
    {
        let x = f(self.x);
        let y = f(self.y);
        AxisVec { x, y }
    }

    /// Return an `AxisVec` with the result of the function `F` applied to the elements of `self`
    /// and `other`.
    pub fn map_with<F: Fn(T, U) -> V, U, V>(self, other: AxisVec<U>, f: F) -> (r: AxisVec<V>)
        where
            T: Copy,
            U: Copy,
        requires
            call_requires(f, (self.x, other.x)),
            call_requires(f, (self.y, other.y)),
        ensures
            call_ensures(f, (self.x, other.x), r.x),
            call_ensures(f, (self.y, other.y), r.y),
    {
        let x = f(self.x, other.x);
        let y = f(self.y, other.y);
        AxisVec { x, y }
    }

    /// Calling [`Into::into`] on the inner variables, returning `AxisVec<U>`.
    pub fn map_into<U>(self) -> (r: AxisVec<U>)
        where
            T: Into<U>,
        ensures
            <T as IntoSpec<U>>::obeys_into_spec() ==> r.x == self.x.into_spec() && r.y
                == self.y.into_spec(),
    {
        AxisVec { x: self.x.into(), y: self.y.into() }
    }

    /// Calling [`TryInto::try_into`] on the inner variables, returning the first error if either
    /// conversion fails.
    pub fn try_map_into<U>(self) -> (r: Result<AxisVec<U>, <T as TryInto<U>>::Error>)
        where
            T: TryInto<U>,
        ensures
            <T as TryIntoSpec<U>>::obeys_try_into_spec() ==> r == (match (
                self.x.try_into_spec(),
                self.y.try_into_spec(),
            ) {
                (Ok(x), Ok(y)) => Ok(AxisVec { x, y }),
                (Err(e), _) => Err(e),
                (_, Err(e)) => Err(e),
            }),
    {
        let x = self.x.try_into();
        let y = self.y.try_into();
        AxisVec { x, y }.flatten()
    }

    /// Apply the function `F` to the `[x, y]` array of elements.
    pub fn flat_map<F: FnOnce([T; 2]) -> U, U>(self, f: F) -> (r: U)
        requires
            forall|a: [T; 2]| a@ == seq![self.x, self.y] ==> call_requires(f, (a,)),
        ensures
            exists|a: [T; 2]| a@ == seq![self.x, self.y] && call_ensures(f, (a,), r),
    {
        let a = [self.x, self.y];
        f(a)
    }

    /// Apply the function `F` to the `[x, y]` array of elements, returning its `Result`.
    pub fn try_flat_map<F: FnOnce([T; 2]) -> Result<U, E>, U, E>(self, f: F) -> (r: Result<U, E>)
        requires
            forall|a: [T; 2]| a@ == seq![self.x, self.y] ==> call_requires(f, (a,)),
        ensures
            exists|a: [T; 2]| a@ == seq![self.x, self.y] && call_ensures(f, (a,), r),
    {
        let a = [self.x, self.y];
        f(a)
    }

    /// Returns `true` if any element satisfies the predicate `f`.
    pub fn any<F: Fn(&T) -> bool>(self, f: F) -> (r: bool)
        requires
            call_requires(f, (&self.x,)),
            call_requires(f, (&self.y,)),
        ensures
            r ==> call_ensures(f, (&self.x,), true) || call_ensures(f, (&self.y,), true),
            !r ==> call_ensures(f, (&self.x,), false) && call_ensures(f, (&self.y,), false),
    {
        f(&self.x) || f(&self.y)
    }

    /// Returns `true` if all elements satisfy the predicate `f`.
    pub fn all<F: Fn(&T) -> bool>(self, f: F) -> (r: bool)
        requires
            call_requires(f, (&self.x,)),
            call_requires(f, (&self.y,)),
        ensures
            r ==> call_ensures(f, (&self.x,), true) && call_ensures(f, (&self.y,), true),
            !r ==> call_ensures(f, (&self.x,), false) || call_ensures(f, (&self.y,), false),
    {
        f(&self.x) && f(&self.y)
    }

    /// Create a new `AxisVec` with element `i` and `j` passed to the given axis `A` and its
    /// transpose respectively.
    pub fn new_mapped<A: AxisValue>(i: T, j: T) -> (r: Self)
        ensures
            r == Self::spec_new_mapped(A::spec_dyn(), i, j),
    {
        match A::into_dyn() {
            DynAxis::X => AxisVec { x: i, y: j },
            DynAxis::Y => AxisVec { x: j, y: i },
        }
    }

    /// Get a copy of the value assigned to the axis `A`.
    pub fn get<A: AxisValue>(&self) -> (r: T)
        where
            T: Copy,
        ensures
            r == self.spec_get(A::spec_dyn()),
    {
        match A::into_dyn() {
            DynAxis::X => self.x,
            DynAxis::Y => self.y,
        }
    }

    /// Get a reference to the value assigned to axis `A`.
    pub fn get_ref<A: AxisValue>(&self) -> (r: &T)
        ensures
            *r == self.spec_get(A::spec_dyn()),
    {
        match A::into_dyn() {
            DynAxis::X => &self.x,
            DynAxis::Y => &self.y,
        }
    }

    /// Get a mutable reference to the value assigned to axis `A`.
    pub fn get_mut<A: AxisValue>(&mut self) -> (r: &mut T)
        ensures
            *r == old(self).spec_get(A::spec_dyn()),
            *final(self) == old(self).spec_set(A::spec_dyn(), *final(r)),
    {
        match A::into_dyn() {
            DynAxis::X => &mut self.x,
            DynAxis::Y => &mut self.y,
        }
    }

    /// Get a clone of the value assigned to axis `A`.
    pub fn get_cloned<A: AxisValue>(&self) -> (r: T)
        where
            T: Clone,
        ensures
            cloned(self.spec_get(A::spec_dyn()), r),
    {
        match A::into_dyn() {
            DynAxis::X => self.x.clone(),
            DynAxis::Y => self.y.clone(),
        }
    }

    /// Set the value assigned to the axis `A` to its default.
    pub fn clear<A: AxisValue>(&mut self)
        where
            T: Default,
        ensures
            call_ensures(T::default, (), final(self).spec_get(A::spec_dyn())),
            final(self).spec_get(A::spec_dyn().spec_t()) == old(self).spec_get(
                A::spec_dyn().spec_t(),
            ),
    {
        let v = T::default();
        match A::into_dyn() {
            DynAxis::X => self.x = v,
            DynAxis::Y => self.y = v,
        }
    }

    /// Return an `AxisVec` with the function `F` applied to the element of axis `A`.
    pub fn map_axis<A: AxisValue, F: Fn(T) -> T>(&self, f: F) -> (r: Self)
        where
            T: Copy,
        requires
            call_requires(f, (self.spec_get(A::spec_dyn()),)),
        ensures
            call_ensures(f, (self.spec_get(A::spec_dyn()),), r.spec_get(A::spec_dyn())),
            r.spec_get(A::spec_dyn().spec_t()) == self.spec_get(A::spec_dyn().spec_t()),
    {
        match A::into_dyn() {
            DynAxis::X => AxisVec { x: f(self.x), y: self.y },
            DynAxis::Y => AxisVec { x: self.x, y: f(self.y) },
        }
    }

    /// Split variables into a `(T, T)` tuple with the axis `A` variable first.
    pub fn split_axis<A: AxisValue>(self) -> (r: (T, T))
        ensures
            r == (self.spec_get(A::spec_dyn()), self.spec_get(A::spec_dyn().spec_t())),
    {
        match A::into_dyn() {
            DynAxis::X => (self.x, self.y),
            DynAxis::Y => (self.y, self.x),
        }
    }

    /// Create a new `AxisVec` with element `i` and `j` passed to the given dynamic axis `a` and
    /// its transpose respectively.
    pub fn new_dyn_mapped(a: DynAxis, i: T, j: T) -> (r: Self)
        ensures
            r == Self::spec_new_mapped(a, i, j),
    {
        match a {
            DynAxis::X => AxisVec { x: i, y: j },
            DynAxis::Y => AxisVec { x: j, y: i },
        }
    }

    /// Get a copy of the value assigned to the dynamic axis `a`.
    pub fn get_dyn(&self, a: DynAxis) -> (r: T)
        where
            T: Copy,
        ensures
            r == self.spec_get(a),
    {
        match a {
            DynAxis::X => self.x,
            DynAxis::Y => self.y,
        }
    }

    /// Get a reference to the value assigned to the given dynamic axis `a`.
    pub fn get_dyn_ref(&self, a: DynAxis) -> (r: &T)
        ensures
            *r == self.spec_get(a),
    {
        match a {
            DynAxis::X => &self.x,
            DynAxis::Y => &self.y,
        }
    }

    /// Get a mutable reference to the value assigned to the given dynamic axis `a`.
    pub fn get_dyn_mut(&mut self, a: DynAxis) -> (r: &mut T)
        ensures
            *r == old(self).spec_get(a),
            *final(self) == old(self).spec_set(a, *final(r)),
    {
        match a {
            DynAxis::X => &mut self.x,
            DynAxis::Y => &mut self.y,
        }
    }

    /// Get a clone of the value assigned to the given dynamic axis `a`.
    pub fn get_dyn_cloned(&self, a: DynAxis) -> (r: T)
        where
            T: Clone,
        ensures
            cloned(self.spec_get(a), r),
    {
        match a {
            DynAxis::X => self.x.clone(),
            DynAxis::Y => self.y.clone(),
        }
    }

    /// Set the value assigned to the given dynamic axis `a` to its default.
    pub fn clear_dyn(&mut self, a: DynAxis)
        where
            T: Default,
        ensures
            call_ensures(T::default, (), final(self).spec_get(a)),
            final(self).spec_get(a.spec_t()) == old(self).spec_get(a.spec_t()),
    {
        let v = T::default();
        match a {
            DynAxis::X => self.x = v,
            DynAxis::Y => self.y = v,
        }
    }

    /// Return an `AxisVec` with the function `F` applied to the element of the dynamic axis `a`.
    pub fn map_dyn_axis<F: Fn(T) -> T>(&self, a: DynAxis, f: F) -> (r: Self)
        where
            T: Copy,
        requires
            call_requires(f, (self.spec_get(a),)),
        ensures
            call_ensures(f, (self.spec_get(a),), r.spec_get(a)),
            r.spec_get(a.spec_t()) == self.spec_get(a.spec_t()),
    {
        match a {
            DynAxis::X => AxisVec { x: f(self.x), y: self.y },
            DynAxis::Y => AxisVec { x: self.x, y: f(self.y) },
        }
    }

    /// Split variables into a `(T, T)` tuple with the dynamic axis `a` variable first.
    pub fn split_dyn_axis(self, a: DynAxis) -> (r: (T, T))
        where
            T: Copy,
        ensures
            r == (self.spec_get(a), self.spec_get(a.spec_t())),
    {
        match a {
            DynAxis::X => (self.x, self.y),
            DynAxis::Y => (self.y, self.x),
        }
    }

    /// Returns the sum of both axis elements.
    pub fn sum(&self) -> (r: T)
        where
            T: Copy + Add<T, Output = T>,
        requires
            self.x.add_req(self.y),
        ensures
            T::obeys_add_spec() ==> r == self.x.add_spec(self.y),
    {
        self.x.add(self.y)
    }

    /// Returns the product of both axis elements.
    pub fn product(&self) -> (r: T)
        where
            T: Copy + Mul<T, Output = T>,
        requires
            self.x.mul_req(self.y),
        ensures
            T::obeys_mul_spec() ==> r == self.x.mul_spec(self.y),
    {
        self.x.mul(self.y)
    }
}

impl<T: Clone> AxisVec<&T> {
    /// Return an [`AxisVec`] with [`Clone::clone`] called on the inner variables.
    pub fn cloned(self) -> (r: AxisVec<T>)
        ensures
            cloned(*self.x, r.x),
            cloned(*self.y, r.y),
    {
        AxisVec { x: self.x.clone(), y: self.y.clone() }
    }
}

impl<T> AxisVec<Option<T>> {
    /// Converts from `AxisVec<Option<T>>` to `Option<AxisVec<T>>`.
    pub fn flatten(self) -> (r: Option<AxisVec<T>>)
        ensures
            r == (match (self.x, self.y) {
                (Some(x), Some(y)) => Some(AxisVec { x, y }),
                _ => None,
            }),
    {
        match (self.x, self.y) {
            (Some(x), Some(y)) => Some(AxisVec { x, y }),
            _ => None,
        }
    }
}

impl<T, E> AxisVec<Result<T, E>> {
    /// Converts from `AxisVec<Result<T, E>>` to `Result<AxisVec<T>, E>`, returning the error of
    /// *x* first.
    pub fn flatten(self) -> (r: Result<AxisVec<T>, E>)
        ensures
            r == (match (self.x, self.y) {
                (Ok(x), Ok(y)) => Ok(AxisVec { x, y }),
                (Err(e), _) => Err(e),
                (_, Err(e)) => Err(e),
            }),
    {
        match (self.x, self.y) {
            (Ok(x), Ok(y)) => Ok(AxisVec { x, y }),
            (Err(e), _) => Err(e),
            (_, Err(e)) => Err(e),
        }
    }
}


impl AxisVec<i32> {
    /// Returns `true` if both axis elements are equal to zero.
    pub fn are_zero(&self) -> (r: bool)
        ensures
            r == (self.x == 0 && self.y == 0),
    {
        self.x == 0 && self.y == 0
    }
}

impl AxisVec<i64> {
    /// Returns `true` if both axis elements are equal to zero.
    pub fn are_zero(&self) -> (r: bool)
        ensures
            r == (self.x == 0 && self.y == 0),
    {
        self.x == 0 && self.y == 0
    }
}

impl AxisVec<u32> {
    /// Returns `true` if both axis elements are equal to zero.
    pub fn are_zero(&self) -> (r: bool)
        ensures
            r == (self.x == 0 && self.y == 0),
    {
        self.x == 0 && self.y == 0
    }
}

impl AxisVec<usize> {
    /// Returns `true` if both axis elements are equal to zero.
    pub fn are_zero(&self) -> (r: bool)
        ensures
            r == (self.x == 0 && self.y == 0),
    {
        self.x == 0 && self.y == 0
    }
}

impl<T: Default + Copy> Default for AxisVec<T> {
    fn default() -> (r: Self)
        ensures
            call_ensures(T::default, (), r.x),
            call_ensures(T::default, (), r.y),
    {
        AxisVec { x: T::default(), y: T::default() }
    }
}

impl<T> From<(T, T)> for AxisVec<T> {
    fn from(v: (T, T)) -> (r: Self) {
        AxisVec { x: v.0, y: v.1 }
    }
}

impl<T> FromSpecImpl<(T, T)> for AxisVec<T> {
    open spec fn obeys_from_spec() -> bool {
        true
    }

    open spec fn from_spec(v: (T, T)) -> Self {
        AxisVec { x: v.0, y: v.1 }
    }
}

impl<T: Copy> From<[T; 2]> for AxisVec<T> {
    fn from(v: [T; 2]) -> (r: Self) {
        AxisVec { x: v[0], y: v[1] }
    }
}

impl<T: Copy> FromSpecImpl<[T; 2]> for AxisVec<T> {
    open spec fn obeys_from_spec() -> bool {
        true
    }

    open spec fn from_spec(v: [T; 2]) -> Self {
        AxisVec { x: v@[0], y: v@[1] }
    }
}

/// The sum of both elements of an `i32` vector is their integer sum, whatever their order: a
/// vector and its transpose (the elements swapped) have the same sum.
pub proof fn lemma_sum_symmetric_i32(v: AxisVec<i32>)
    requires
        i32::MIN <= v.x + v.y <= i32::MAX,
    ensures
        <i32 as AddSpec<i32>>::obeys_add_spec(),
        v.x.add_spec(v.y) == v.x + v.y,
        v.x.add_spec(v.y) == (AxisVec { x: v.y, y: v.x }).x.add_spec(v.x),
{
}

/// The sum of both elements of a `usize` vector is their integer sum, whatever their order: a
/// vector and its transpose (the elements swapped) have the same sum.
pub proof fn lemma_sum_symmetric_usize(v: AxisVec<usize>)
    requires
        v.x + v.y <= usize::MAX,
    ensures
        <usize as AddSpec<usize>>::obeys_add_spec(),
        v.x.add_spec(v.y) == v.x + v.y,
        v.x.add_spec(v.y) == (AxisVec { x: v.y, y: v.x }).x.add_spec(v.x),
{
}

/// The sum of both elements of an `u32` vector is their integer sum, whatever their order: a
/// vector and its transpose (the elements swapped) have the same sum.
pub proof fn lemma_sum_symmetric_u32(v: AxisVec<u32>)
    requires
        v.x + v.y <= u32::MAX,
    ensures
        <u32 as AddSpec<u32>>::obeys_add_spec(),
        v.x.add_spec(v.y) == v.x + v.y,
        v.x.add_spec(v.y) == (AxisVec { x: v.y, y: v.x }).x.add_spec(v.x),
{
}

/// The sum of both elements of an `i64` vector is their integer sum, whatever their order: a
/// vector and its transpose (the elements swapped) have the same sum.
pub proof fn lemma_sum_symmetric_i64(v: AxisVec<i64>)
    requires
        i64::MIN <= v.x + v.y <= i64::MAX,
    ensures
        <i64 as AddSpec<i64>>::obeys_add_spec(),
        v.x.add_spec(v.y) == v.x + v.y,
        v.x.add_spec(v.y) == (AxisVec { x: v.y, y: v.x }).x.add_spec(v.x),
{
}

/// Getting a clone by a dynamic axis is getting it by the axis marker: both clone the element of
/// axis `A`, so that where a clone equals its original, [`AxisVec::get_dyn_cloned`] on the
/// dynamic axis of `A` and [`AxisVec::get_cloned`] on `A` give the same value.
pub proof fn lemma_dyn_cloned_is_cloned<T: Clone, A: AxisValue>(v: AxisVec<T>, r_dyn: T, r: T)
    requires
        forall|x: T, y: T| #[trigger] cloned(x, y) ==> x == y,
        cloned(v.spec_get(A::spec_dyn()), r_dyn),
        cloned(v.spec_get(A::spec_dyn()), r),
    ensures
        r_dyn == r,
        r == v.spec_get(A::spec_dyn()),
{
}

/// Mapping by a dynamic axis is mapping by the axis marker: where `f` gives one result for each
/// argument, [`AxisVec::map_dyn_axis`] on the dynamic axis of `A` and [`AxisVec::map_axis`] on
/// `A` give the same vector, which keeps the element of the transpose axis.
pub proof fn lemma_map_dyn_axis_is_map_axis<T, A: AxisValue, F: Fn(T) -> T>(
    v: AxisVec<T>,
    f: F,
    r_dyn: AxisVec<T>,
    r: AxisVec<T>,
)
    requires
        forall|x: T, y: T, z: T|
            #[trigger] call_ensures(f, (x,), y) && #[trigger] call_ensures(f, (x,), z) ==> y == z,
        call_ensures(f, (v.spec_get(A::spec_dyn()),), r_dyn.spec_get(A::spec_dyn())),
        r_dyn.spec_get(A::spec_dyn().spec_t()) == v.spec_get(A::spec_dyn().spec_t()),
        call_ensures(f, (v.spec_get(A::spec_dyn()),), r.spec_get(A::spec_dyn())),
        r.spec_get(A::spec_dyn().spec_t()) == v.spec_get(A::spec_dyn().spec_t()),
    ensures
        r_dyn == r,
        r.spec_get(A::spec_dyn().spec_t()) == v.spec_get(A::spec_dyn().spec_t()),
{
    assert(r_dyn.spec_get(A::spec_dyn()) == r.spec_get(A::spec_dyn()));
    match A::spec_dyn() {
        DynAxis::X => {},
        DynAxis::Y => {},
    }
}

} // verus!
