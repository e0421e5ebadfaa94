use vstd::prelude::*;

use crate::plane::axis::{AxisValue, DynAxis};
use crate::plane::endpoint::{Endpoint, EndpointBound};

verus! {

/// # AxisMask
///
/// Bitmask representation of directions or axis bound extremes.
///
/// Bounds are represented as the 4 LSB, ordered by the *lower* and *upper* bounds of the `x` and
/// `y` axes respectively. In binary, each bit represents `[_, _, _, _, bottom, top, right, left]`.
#[derive(Debug, Default, Copy, Clone, PartialEq, Eq, PartialOrd, Ord, Structural)]
pub struct AxisMask(pub u8);

#[allow(non_snake_case)]
impl AxisMask {
    /// An `AxisMask` with no bits set.
    pub fn NONE() -> (r: AxisMask)
        ensures
            r.0 == 0b0000_0000,
    {
        AxisMask(0b0000_0000)
    }
    /// An `AxisMask` with all bits set.
    pub fn ALL() -> (r: AxisMask)
        ensures
            r.0 == 0b0000_1111,
    {
        AxisMask(0b0000_1111)
    }
    /// An `AxisMask` with the bits of axis *x* set.
    pub fn X() -> (r: AxisMask)
        ensures
            r.0 == 0b0000_0011,
    {
        AxisMask(0b0000_0011)
    }
    /// An `AxisMask` with the bits of axis *y* set.
    pub fn Y() -> (r: AxisMask)
        ensures
            r.0 == 0b0000_1100,
    {
        AxisMask(0b0000_1100)
    }
    /// An `AxisMask` with only the left bit set.
    pub fn LEFT() -> (r: AxisMask)
        ensures
            r.0 == 0b0000_0001,
    {
        AxisMask(0b0000_0001)
    }
    /// An `AxisMask` with only the right bit set.
    pub fn RIGHT() -> (r: AxisMask)
        ensures
            r.0 == 0b0000_0010,
    {
        AxisMask(0b0000_0010)
    }
    /// An `AxisMask` with only the top bit set.
    pub fn TOP() -> (r: AxisMask)
        ensures
            r.0 == 0b0000_0100,
    {
        AxisMask(0b0000_0100)
    }
    /// An `AxisMask` with only the bottom bit set.
    pub fn BOTTOM() -> (r: AxisMask)
        ensures
            r.0 == 0b0000_1000,
    {
        AxisMask(0b0000_1000)
    }
    /// An `AxisMask` with the top and left bits set.
    pub fn TOP_LEFT() -> (r: AxisMask)
        ensures
            r.0 == 0b0000_0101,
    {
        AxisMask(0b0000_0101)
    }
    /// An `AxisMask` with the bottom and left bits set.
    pub fn BOTTOM_LEFT() -> (r: AxisMask)
        ensures
            r.0 == 0b0000_1001,
    {
        AxisMask(0b0000_1001)
    }
    /// An `AxisMask` with the top and right bits set.
    pub fn TOP_RIGHT() -> (r: AxisMask)
        ensures
            r.0 == 0b0000_0110,
    {
        AxisMask(0b0000_0110)
    }
    /// An `AxisMask` with the bottom and right bits set.
    pub fn BOTTOM_RIGHT() -> (r: AxisMask)
        ensures
            r.0 == 0b0000_1010,
    {
        AxisMask(0b0000_1010)
    }

    /// The bit of an axis endpoint.
    pub open spec fn spec_end_bit(a: DynAxis, b: EndpointBound) -> u8 {
        match (a, b) {
            (DynAxis::X, EndpointBound::Lower) => 1,
            (DynAxis::X, EndpointBound::Upper) => 2,
            (DynAxis::Y, EndpointBound::Lower) => 4,
            (DynAxis::Y, EndpointBound::Upper) => 8,
        }
    }

    /// The bits of an axis.
    pub open spec fn spec_axis_bits(a: DynAxis) -> u8 {
        match a {
            DynAxis::X => 3,
            DynAxis::Y => 12,
        }
    }

    /// Whether the bit of an axis endpoint is set.
    pub open spec fn spec_end_set(self, a: DynAxis, b: EndpointBound) -> bool {
        self.0 & Self::spec_end_bit(a, b) != 0
    }

    /// Create a `AxisMask` from the given bits.
    pub fn from_bits(mask: u8) -> (r: Self)
        ensures
            r.0 == mask,
    {
        AxisMask(mask)
    }

    /// Create an `AxisMask` with all bits of the given axis set.
    pub fn from_axis<A: AxisValue>() -> (r: Self)
        ensures
            r.0 == Self::spec_axis_bits(A::spec_dyn()),
    {
        match A::into_dyn() {
            DynAxis::X => AxisMask::X(),
            DynAxis::Y => AxisMask::Y(),
        }
    }

    /// Create an `AxisMask` with all bits of the given dynamic axis set.
    pub fn from_dyn_axis(a: DynAxis) -> (r: Self)
        ensures
            r.0 == Self::spec_axis_bits(a),
    {
        match a {
            DynAxis::X => AxisMask::X(),
            DynAxis::Y => AxisMask::Y(),
        }
    }

    /// Create an `AxisMask` with only the bit of the given axis and [`Endpoint<A>`] set.
    pub fn from_end<A: AxisValue>(end: Endpoint<A>) -> (r: Self)
        ensures
            r.0 == Self::spec_end_bit(A::spec_dyn(), end.bound),
    {
        let mask = match (A::into_dyn(), end.bound) {
            (DynAxis::X, EndpointBound::Lower) => AxisMask::LEFT().0,
            (DynAxis::X, EndpointBound::Upper) => AxisMask::RIGHT().0,
            (DynAxis::Y, EndpointBound::Lower) => AxisMask::TOP().0,
            (DynAxis::Y, EndpointBound::Upper) => AxisMask::BOTTOM().0,
        };
        AxisMask(mask)
    }

    /// Returns `true` if the bit of the given axis and [`Endpoint<A>`] is set.
    pub fn end_is_set<A: AxisValue>(&self, end: Endpoint<A>) -> (r: bool)
        ensures
            r == self.spec_end_set(A::spec_dyn(), end.bound),
    {
        self.0 & AxisMask::from_end(end).0 != 0
    }

    /// Returns `true` if the bit of the given [`Endpoint<A>`] is set on either axis.
    pub fn any_end_is_set<A>(&self, end: Endpoint<A>) -> (r: bool)
        ensures
            r == (self.spec_end_set(DynAxis::X, end.bound) || self.spec_end_set(
                DynAxis::Y,
                end.bound,
            )),
    {
        let r = match end.bound {
            EndpointBound::Lower => self.0 & AxisMask::TOP_LEFT().0 != 0,
            EndpointBound::Upper => self.0 & AxisMask::BOTTOM_RIGHT().0 != 0,
        };
        let m = self.0;
        assert((m & 5u8 != 0) == (m & 1u8 != 0 || m & 4u8 != 0)) by (bit_vector);
        assert((m & 10u8 != 0) == (m & 2u8 != 0 || m & 8u8 != 0)) by (bit_vector);
        r
    }

    /// Select only the bits of the given axis.
    pub fn isolate_axis<A: AxisValue>(self) -> (r: AxisMask)
        ensures
            r.0 == self.0 & Self::spec_axis_bits(A::spec_dyn()),
    {
        AxisMask(self.0 & Self::from_axis::<A>().0)
    }

    /// Set the bit at the given axis [`Endpoint<A>`].
    pub fn set_end<A: AxisValue>(&mut self, end: Endpoint<A>)
        ensures
            final(self).0 == old(self).0 | Self::spec_end_bit(A::spec_dyn(), end.bound),
    {
        self.0 = self.0 | AxisMask::from_end::<A>(end).0;
    }

    /// Clear all bits of the `AxisMask`.
    pub fn clear(&mut self)
        ensures
            final(self).0 == 0,
    {
        self.0 = 0;
    }

    /// Clear the bit of the given axis and endpoint.
    pub fn clear_end<A: AxisValue>(&mut self, end: Endpoint<A>)
        ensures
            final(self).0 == old(self).0 & !Self::spec_end_bit(A::spec_dyn(), end.bound),
    {
        self.0 = self.0 & !Self::from_end::<A>(end).0;
    }

    /// Clear the bits of the given axis, keeping those of its transpose.
    pub fn clear_axis<A: AxisValue>(&mut self)
        ensures
            final(self).0 == old(self).0 & Self::spec_axis_bits(A::spec_dyn().spec_t()),
    {
        let t = A::into_dyn().t();
        self.0 = self.0 & Self::from_dyn_axis(t).0;
    }

    /// The bits of a mask with each axis transposed.
    pub open spec fn spec_transpose(m: u8) -> u8 {
        (m & 0b0011) << 2u8 | (m & 0b1100) >> 2u8
    }

    /// Transpose the bits of each axis.
    pub fn transpose(self) -> (r: Self)
        ensures
            r.0 == Self::spec_transpose(self.0),
    {
        let mask = (self.0 & 0b0011) << 2u8 | (self.0 & 0b1100) >> 2u8;
        AxisMask(mask)
    }

    /// The bound of the first set endpoint of axis `a` (the lower one first), if any.
    pub open spec fn spec_first_end(self, a: DynAxis) -> Option<EndpointBound> {
        if self.spec_end_set(a, EndpointBound::Lower) {
            Some(EndpointBound::Lower)
        } else if self.spec_end_set(a, EndpointBound::Upper) {
            Some(EndpointBound::Upper)
        } else {
            None
        }
    }

    /// Return the first set endpoint (using LSB ordering) for the given axis.
    pub fn first_end<A: AxisValue>(&self) -> (r: Option<Endpoint<A>>)
        ensures
            r == (match self.spec_first_end(A::spec_dyn()) {
                Some(b) => Some(Endpoint::<A>::spec_of(b)),
                None => None,
            }),
    {
        let mask = self.isolate_axis::<A>();
        let m = self.0;
        assert((m & 3u8) & 5u8 == m & 1u8 && (m & 3u8) & 10u8 == m & 2u8) by (bit_vector);
        assert((m & 12u8) & 5u8 == m & 4u8 && (m & 12u8) & 10u8 == m & 8u8) by (bit_vector);
        if mask.0 & Self::TOP_LEFT().0 != 0 {
            Some(Endpoint::LOWER())
        } else if mask.0 & Self::BOTTOM_RIGHT().0 != 0 {
            Some(Endpoint::UPPER())
        } else {
            None
        }
    }

    /// Returns true if the [`AxisMask::LEFT`] bit is set.
    pub fn left(&self) -> (r: bool)
        ensures
            r == self.spec_end_set(DynAxis::X, EndpointBound::Lower),
    {
        let m = self.0;
        assert((m & 1u8 > 0) == (m & 1u8 != 0)) by (bit_vector);
        self.0 & AxisMask::LEFT().0 > 0
    }

    /// Returns true if the [`AxisMask::RIGHT`] bit is set.
    pub fn right(&self) -> (r: bool)
        ensures
            r == self.spec_end_set(DynAxis::X, EndpointBound::Upper),
    {
        self.0 & AxisMask::RIGHT().0 > 0
    }

    /// Returns true if the [`AxisMask::TOP`] bit is set.
    pub fn top(&self) -> (r: bool)
        ensures
            r == self.spec_end_set(DynAxis::Y, EndpointBound::Lower),
    {
        self.0 & AxisMask::TOP().0 > 0
    }

    /// Returns true if the [`AxisMask::BOTTOM`] bit is set.
    pub fn bottom(&self) -> (r: bool)
        ensures
            r == self.spec_end_set(DynAxis::Y, EndpointBound::Upper),
    {
        self.0 & AxisMask::BOTTOM().0 > 0
    }

    /// Returns `true` if any bit is set.
    pub fn any(&self) -> (r: bool)
        ensures
            r == (self.0 != 0),
    {
        self.0 != 0
    }

    /// Returns `true` if all bits are set (and no other).
    pub fn all(&self) -> (r: bool)
        ensures
            r == (self.0 == 15),
    {
        self.0 == Self::ALL().0
    }

    /// Returns `true` if any bit is set on the given axis.
    pub fn any_on_axis<A: AxisValue>(&self) -> (r: bool)
        ensures
            r == (self.0 & Self::spec_axis_bits(A::spec_dyn()) != 0),
    {
        match A::into_dyn() {
            DynAxis::X => self.0 & Self::X().0 != 0,
            DynAxis::Y => self.0 & Self::Y().0 != 0,
        }
    }

    /// Returns `true` if all bits are set on the given axis.
    pub fn all_on_axis<A: AxisValue>(&self) -> (r: bool)
        ensures
            r == (self.0 & Self::spec_axis_bits(A::spec_dyn()) == Self::spec_axis_bits(A::spec_dyn())),
    {
        match A::into_dyn() {
            DynAxis::X => self.0 & Self::X().0 == Self::X().0,
            DynAxis::Y => self.0 & Self::Y().0 == Self::Y().0,
        }
    }

    /// Returns `true` if no bits are set.
    pub fn none(&self) -> (r: bool)
        ensures
            r == (self.0 == 0),
    {
        self.0 == Self::NONE().0
    }
}

/// Transposing a mask twice gives back its four endpoint bits.
pub proof fn lemma_transpose_involutive(m: AxisMask)
    ensures
        AxisMask::spec_transpose(AxisMask::spec_transpose(m.0)) == m.0 & 15u8,
{
    let x = m.0;
    assert(((((x & 3u8) << 2u8) | ((x & 12u8) >> 2u8)) & 3u8) << 2u8 | ((((x & 3u8) << 2u8) | ((
    x & 12u8) >> 2u8)) & 12u8) >> 2u8 == x & 15u8) by (bit_vector);
}

/// Transposing a mask moves the bit of each axis endpoint to the same endpoint of the
/// transpose axis.
pub proof fn lemma_transpose_end(m: AxisMask, a: DynAxis, b: EndpointBound)
    ensures
        AxisMask(AxisMask::spec_transpose(m.0)).spec_end_set(a.spec_t(), b) == m.spec_end_set(a, b),
{
    let x = m.0;
    let t = AxisMask::spec_transpose(x);
    assert(t == ((x & 3u8) << 2u8) | ((x & 12u8) >> 2u8));
    assert(((((x & 3u8) << 2u8) | ((x & 12u8) >> 2u8)) & 4u8 != 0) == (x & 1u8 != 0))
        by (bit_vector);
    assert(((((x & 3u8) << 2u8) | ((x & 12u8) >> 2u8)) & 8u8 != 0) == (x & 2u8 != 0))
        by (bit_vector);
    assert(((((x & 3u8) << 2u8) | ((x & 12u8) >> 2u8)) & 1u8 != 0) == (x & 4u8 != 0))
        by (bit_vector);
    assert(((((x & 3u8) << 2u8) | ((x & 12u8) >> 2u8)) & 2u8 != 0) == (x & 8u8 != 0))
        by (bit_vector);
}

/// Setting an endpoint bit sets exactly that bit: the endpoint is then set and every other
/// endpoint keeps its state.
pub proof fn lemma_set_end(m: AxisMask, a: DynAxis, b: EndpointBound, a2: DynAxis, b2: EndpointBound)
    ensures
        AxisMask(m.0 | AxisMask::spec_end_bit(a, b)).spec_end_set(a2, b2) == ((a2 == a && b2 == b)
            || m.spec_end_set(a2, b2)),
{
    lemma_end_bits(m.0, AxisMask::spec_end_bit(a, b), AxisMask::spec_end_bit(a2, b2));
    lemma_end_bit_distinct(a, b, a2, b2);
}

/// Clearing an endpoint bit clears exactly that bit: the endpoint is then clear and every
/// other endpoint keeps its state.
pub proof fn lemma_clear_end(m: AxisMask, a: DynAxis, b: EndpointBound, a2: DynAxis, b2: EndpointBound)
    ensures
        AxisMask(m.0 & !AxisMask::spec_end_bit(a, b)).spec_end_set(a2, b2) == (!(a2 == a && b2
            == b) && m.spec_end_set(a2, b2)),
{
    lemma_end_bits(m.0, AxisMask::spec_end_bit(a, b), AxisMask::spec_end_bit(a2, b2));
    lemma_end_bit_distinct(a, b, a2, b2);
}

/// The bits of an axis and of its transpose together make up the four endpoint bits.
pub proof fn lemma_axis_partition(m: AxisMask, a: DynAxis)
    ensures
        (m.0 & AxisMask::spec_axis_bits(a)) | (m.0 & AxisMask::spec_axis_bits(a.spec_t())) == m.0
            & 15u8,
        (m.0 & AxisMask::spec_axis_bits(a)) & (m.0 & AxisMask::spec_axis_bits(a.spec_t())) == 0u8,
{
    let x = m.0;
    assert((x & 3u8) | (x & 12u8) == x & 15u8 && (x & 12u8) | (x & 3u8) == x & 15u8)
        by (bit_vector);
    assert((x & 3u8) & (x & 12u8) == 0u8 && (x & 12u8) & (x & 3u8) == 0u8) by (bit_vector);
}

proof fn lemma_end_bit_distinct(a: DynAxis, b: EndpointBound, a2: DynAxis, b2: EndpointBound)
    ensures
        (AxisMask::spec_end_bit(a, b) == AxisMask::spec_end_bit(a2, b2)) == (a == a2 && b == b2),
{
}

proof fn lemma_end_bits(x: u8, p: u8, q: u8)
    requires
        p == 1 || p == 2 || p == 4 || p == 8,
        q == 1 || q == 2 || q == 4 || q == 8,
    ensures
        ((x | p) & q != 0) == (p == q || x & q != 0),
        ((x & !p) & q != 0) == (p != q && x & q != 0),
{
    assert(p == 1u8 || p == 2u8 || p == 4u8 || p == 8u8 ==> (q == 1u8 || q == 2u8 || q == 4u8
        || q == 8u8) ==> ((x | p) & q != 0) == (p == q || x & q != 0) && ((x & !p) & q != 0) == (p
        != q && x & q != 0)) by (bit_vector);
}

} // verus!
