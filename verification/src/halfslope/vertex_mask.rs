use vstd::prelude::*;

use crate::plane::axis::{Axis, AxisValue, DynAxis};
use crate::plane::axis_mask::AxisMask;
use crate::plane::axis_vec::AxisVec;
use crate::plane::endpoint::{Endpoint, EndpointBound};

verus! {

/// The number of set bits of a byte.
pub open spec fn spec_count_ones(x: u8) -> u32
    decreases x,
{
    if x == 0 {
        0
    } else {
        ((x % 2) as u32 + spec_count_ones(x / 2)) as u32
    }
}

/// `u8::count_ones` returns the number of ones in the binary representation of the byte.
pub assume_specification[ u8::count_ones ](x: u8) -> (r: u32)
    ensures
        r == spec_count_ones(x),
;

/// # VertexMask
///
/// Bitmask representation of quad vertices.
///
/// Vertices are represented as the 4 LSB, ordered by the cartesian product of the *lower* and
/// *upper* endpoint of the *x* and *y* axes respectively. Where the LSB is index zero, each bit
/// represents `[.., bottom-right, top-right, bottom-left, top-left]`.
#[derive(Debug, Default, Copy, Clone, PartialEq, Eq, Structural)]
pub struct VertexMask(pub u8);

#[allow(non_snake_case)]
impl VertexMask {
    /// The bit of the vertex at the *x* bound `xb` and the *y* bound `yb`.
    pub open spec fn spec_vertex_bit(xb: EndpointBound, yb: EndpointBound) -> u8 {
        match (xb, yb) {
            (EndpointBound::Lower, EndpointBound::Lower) => 1,
            (EndpointBound::Lower, EndpointBound::Upper) => 2,
            (EndpointBound::Upper, EndpointBound::Lower) => 4,
            (EndpointBound::Upper, EndpointBound::Upper) => 8,
        }
    }

    /// The bit of the vertex at bound `b` of axis `a` and bound `tb` of its transpose.
    pub open spec fn spec_axis_vertex_bit(a: DynAxis, b: EndpointBound, tb: EndpointBound) -> u8 {
        match a {
            DynAxis::X => Self::spec_vertex_bit(b, tb),
            DynAxis::Y => Self::spec_vertex_bit(tb, b),
        }
    }

    /// Whether the vertex at bound `b` of axis `a` and bound `tb` of its transpose is set.
    pub open spec fn spec_vertex_set(self, a: DynAxis, b: EndpointBound, tb: EndpointBound) -> bool {
        self.0 & Self::spec_axis_vertex_bit(a, b, tb) != 0
    }

    /// The two vertex bits of the edge at bound `b` of axis `a`.
    pub open spec fn spec_edge_bits(a: DynAxis, b: EndpointBound) -> u8 {
        match (a, b) {
            (DynAxis::X, EndpointBound::Lower) => 3,
            (DynAxis::X, EndpointBound::Upper) => 12,
            (DynAxis::Y, EndpointBound::Lower) => 5,
            (DynAxis::Y, EndpointBound::Upper) => 10,
        }
    }

    /// The mask of the three vertices of a triangle, by the bit of its vertex opposite the
    /// hypotenuse, if the bits are those of a triangle.
    pub open spec fn spec_tri_vertex(bits: u8) -> Option<u8> {
        if bits == 7 {
            Some(1u8)
        } else if bits == 11 {
            Some(2u8)
        } else if bits == 13 {
            Some(4u8)
        } else if bits == 14 {
            Some(8u8)
        } else {
            None
        }
    }

    /// A `VertexMask` with no bits set.
    pub fn NONE() -> (r: VertexMask)
        ensures
            r.0 == 0,
    {
        VertexMask(0b0000_0000)
    }

    /// A `VertexMask` with all bits set.
    pub fn ALL() -> (r: VertexMask)
        ensures
            r.0 == 15,
    {
        VertexMask(0b0000_1111)
    }

    /// A `VertexMask` with the left bits set.
    pub fn LEFT() -> (r: VertexMask)
        ensures
            r.0 == 3,
    {
        VertexMask(0b0000_0011)
    }

    /// A `VertexMask` with the right bits set.
    pub fn RIGHT() -> (r: VertexMask)
        ensures
            r.0 == 12,
    {
        VertexMask(0b0000_1100)
    }

    /// A `VertexMask` with the top bits set.
    pub fn TOP() -> (r: VertexMask)
        ensures
            r.0 == 5,
    {
        VertexMask(0b0000_0101)
    }

    /// A `VertexMask` with the bottom bits set.
    pub fn BOTTOM() -> (r: VertexMask)
        ensures
            r.0 == 10,
    {
        VertexMask(0b0000_1010)
    }

    /// A `VertexMask` with only the top-left bit set.
    pub fn TOP_LEFT_INCL() -> (r: VertexMask)
        ensures
            r.0 == 1,
    {
        VertexMask(0b0000_0001)
    }

    /// A `VertexMask` with only the bottom-left bit set.
    pub fn BOTTOM_LEFT_INCL() -> (r: VertexMask)
        ensures
            r.0 == 2,
    {
        VertexMask(0b0000_0010)
    }

    /// A `VertexMask` with only the top-right bit set.
    pub fn TOP_RIGHT_INCL() -> (r: VertexMask)
        ensures
            r.0 == 4,
    {
        VertexMask(0b0000_0100)
    }

    /// A `VertexMask` with only the bottom-right bit set.
    pub fn BOTTOM_RIGHT_INCL() -> (r: VertexMask)
        ensures
            r.0 == 8,
    {
        VertexMask(0b0000_1000)
    }

    /// A `VertexMask` with only the top-left bit clear.
    pub fn TOP_LEFT_EXCL() -> (r: VertexMask)
        ensures
            r.0 == 14,
    {
        VertexMask(0b0000_1110)
    }

    /// A `VertexMask` with only the bottom-left bit clear.
    pub fn BOTTOM_LEFT_EXCL() -> (r: VertexMask)
        ensures
            r.0 == 13,
    {
        VertexMask(0b0000_1101)
    }

    /// A `VertexMask` with only the top-right bit clear.
    pub fn TOP_RIGHT_EXCL() -> (r: VertexMask)
        ensures
            r.0 == 11,
    {
        VertexMask(0b0000_1011)
    }

    /// A `VertexMask` with only the bottom-right bit clear.
    pub fn BOTTOM_RIGHT_EXCL() -> (r: VertexMask)
        ensures
            r.0 == 7,
    {
        VertexMask(0b0000_0111)
    }

    /// Create a `VertexMask` from the given bits.
    pub fn from_bits(mask: u8) -> (r: Self)
        ensures
            r.0 == mask,
    {
        VertexMask(mask)
    }

    /// Create a `VertexMask` with only the vertex at `end` of axis `A` and `t_end` of its
    /// transpose set.
    pub fn from_vertex<A: Axis>(end: Endpoint<A>, t_end: Endpoint<A::T>) -> (r: Self)
        ensures
            r.0 == Self::spec_axis_vertex_bit(A::spec_dyn(), end.bound, t_end.bound),
    {
        let vertex_ends = AxisVec::<EndpointBound>::new_mapped::<A>(end.bound, t_end.bound);
        match (vertex_ends.x, vertex_ends.y) {
            (EndpointBound::Lower, EndpointBound::Lower) => VertexMask::TOP_LEFT_INCL(),
            (EndpointBound::Lower, EndpointBound::Upper) => VertexMask::BOTTOM_LEFT_INCL(),
            (EndpointBound::Upper, EndpointBound::Lower) => VertexMask::TOP_RIGHT_INCL(),
            (EndpointBound::Upper, EndpointBound::Upper) => VertexMask::BOTTOM_RIGHT_INCL(),
        }
    }

    /// Create a `VertexMask` with only the vertex at bound `b` of the dynamic axis `a` and `tb`
    /// of its transpose set.
    pub fn from_dyn_vertex(a: DynAxis, b: EndpointBound, tb: EndpointBound) -> (r: Self)
        ensures
            r.0 == Self::spec_axis_vertex_bit(a, b, tb),
    {
        let (xb, yb) = match a {
            DynAxis::X => (b, tb),
            DynAxis::Y => (tb, b),
        };
        match (xb, yb) {
            (EndpointBound::Lower, EndpointBound::Lower) => VertexMask::TOP_LEFT_INCL(),
            (EndpointBound::Lower, EndpointBound::Upper) => VertexMask::BOTTOM_LEFT_INCL(),
            (EndpointBound::Upper, EndpointBound::Lower) => VertexMask::TOP_RIGHT_INCL(),
            (EndpointBound::Upper, EndpointBound::Upper) => VertexMask::BOTTOM_RIGHT_INCL(),
        }
    }

    /// Create a `VertexMask` with only the bits of the edge at bound `b` of the dynamic axis
    /// `a` set.
    pub fn from_dyn_edge(a: DynAxis, b: EndpointBound) -> (r: VertexMask)
        ensures
            r.0 == Self::spec_edge_bits(a, b),
    {
        let bits = match (a, b) {
            (DynAxis::X, EndpointBound::Lower) => VertexMask::LEFT().0,
            (DynAxis::X, EndpointBound::Upper) => VertexMask::RIGHT().0,
            (DynAxis::Y, EndpointBound::Lower) => VertexMask::TOP().0,
            (DynAxis::Y, EndpointBound::Upper) => VertexMask::BOTTOM().0,
        };
        VertexMask(bits)
    }

    /// Create a new `VertexMask` with the bit at the given const `INDEX` set.
    pub fn from_bit_index<const INDEX: u8>() -> (r: Self)
        requires
            INDEX < 4,
        ensures
            r.0 == (1u8 << INDEX),
    {
        VertexMask(1u8 << INDEX)
    }

    /// Create a `VertexMask` with only the bits of the edge at the given endpoint set.
    pub fn from_axis<A: AxisValue>(end: Endpoint<A>) -> (r: VertexMask)
        ensures
            r.0 == Self::spec_edge_bits(A::spec_dyn(), end.bound),
    {
        let bits = match (A::into_dyn(), end.bound) {
            (DynAxis::X, EndpointBound::Lower) => VertexMask::LEFT().0,
            (DynAxis::X, EndpointBound::Upper) => VertexMask::RIGHT().0,
            (DynAxis::Y, EndpointBound::Lower) => VertexMask::TOP().0,
            (DynAxis::Y, EndpointBound::Upper) => VertexMask::BOTTOM().0,
        };
        VertexMask(bits)
    }

    /// The vertex mask selected by an [`AxisMask`]: the edge of a single set endpoint, the three
    /// vertices away from the corner of two set endpoints on different axes, no vertex for an
    /// empty mask, and all vertices otherwise.
    pub open spec fn spec_from_axismask(m: u8) -> u8 {
        if m == 1 {
            3
        } else if m == 2 {
            12
        } else if m == 4 {
            5
        } else if m == 8 {
            10
        } else if m == 5 {
            7
        } else if m == 6 {
            13
        } else if m == 9 {
            11
        } else if m == 10 {
            14
        } else if m == 0 {
            0
        } else {
            15
        }
    }

    /// Create a `VertexMask` from the given [`AxisMask`], selecting the adjacent vertex bits for
    /// any axis in the `mask`.
    pub fn from_axismask(mask: AxisMask) -> (r: Self)
        ensures
            r.0 == Self::spec_from_axismask(mask.0),
    {
        match mask.0 {
            0b0001 => Self::LEFT(),
            0b0010 => Self::RIGHT(),
            0b0100 => Self::TOP(),
            0b1000 => Self::BOTTOM(),
            0b0101 => Self::BOTTOM_RIGHT_EXCL(),
            0b0110 => Self::BOTTOM_LEFT_EXCL(),
            0b1001 => Self::TOP_RIGHT_EXCL(),
            0b1010 => Self::TOP_LEFT_EXCL(),
            0b0000 => Self::NONE(),
            _ => Self::ALL(),
        }
    }

    /// Returns `true` if the vertex at the given const `INDEX` is set.
    pub fn index_is_set<const INDEX: u8>(&self) -> (r: bool)
        requires
            INDEX < 8,
        ensures
            r == (self.0 & (1u8 << INDEX) != 0),
    {
        self.0 & (1u8 << INDEX) != 0
    }

    /// Returns `true` if the vertex at `end` of axis `A` and `t_end` of its transpose is set.
    pub fn vertex_is_set<A: Axis>(&self, end: Endpoint<A>, t_end: Endpoint<A::T>) -> (r: bool)
        ensures
            r == self.spec_vertex_set(A::spec_dyn(), end.bound, t_end.bound),
    {
        (self.0 & VertexMask::from_vertex(end, t_end).0) != 0
    }

    /// Returns `true` if only the vertex at `end` of axis `A` and `t_end` of its transpose is
    /// set.
    pub fn vertex_is_set_excl<A: Axis>(&self, end: Endpoint<A>, t_end: Endpoint<A::T>) -> (r: bool)
        ensures
            r == (self.0 == Self::spec_axis_vertex_bit(A::spec_dyn(), end.bound, t_end.bound)),
    {
        self.0 == VertexMask::from_vertex(end, t_end).0
    }

    /// The [`AxisMask`] bits of the transpose-axis endpoints of the vertices of an edge.
    pub open spec fn spec_isolate_edge(self, a: DynAxis, b: EndpointBound) -> u8 {
        (if self.spec_vertex_set(a, b, EndpointBound::Lower) {
            AxisMask::spec_end_bit(a.spec_t(), EndpointBound::Lower)
        } else {
            0u8
        }) | (if self.spec_vertex_set(a, b, EndpointBound::Upper) {
            AxisMask::spec_end_bit(a.spec_t(), EndpointBound::Upper)
        } else {
            0u8
        })
    }

    /// Returns `true` if both vertices of the given edge are set.
    pub fn edge_all_set<A: Axis>(&self, endpoint: Endpoint<A>) -> (r: bool)
        ensures
            r == (self.spec_vertex_set(A::spec_dyn(), endpoint.bound, EndpointBound::Lower)
                && self.spec_vertex_set(A::spec_dyn(), endpoint.bound, EndpointBound::Upper)),
    {
        let m = self.isolate_edge::<A>(endpoint);
        proof {
            lemma_vertex_mask_bits(self.0);
            lemma_count_two_end_bits(m.0);
        }
        m.0.count_ones() == 2
    }

    /// Returns `true` if either vertex of the given edge is set.
    pub fn edge_any_set<A: Axis>(&self, endpoint: Endpoint<A>) -> (r: bool)
        ensures
            r == (self.spec_vertex_set(A::spec_dyn(), endpoint.bound, EndpointBound::Lower)
                || self.spec_vertex_set(A::spec_dyn(), endpoint.bound, EndpointBound::Upper)),
    {
        let m = self.isolate_edge::<A>(endpoint);
        proof {
            lemma_vertex_mask_bits(self.0);
            lemma_count_two_end_bits(m.0);
        }
        m.0.count_ones() != 0
    }

    /// Returns an [`AxisMask`] retaining only the endpoints of the given edge. The returned
    /// [`AxisMask`] retains bits on the **transpose** axis (eg. isolating the *left* edge returns
    /// an [`AxisMask`] with (at most) the *top* and *bottom* bits set).
    pub fn isolate_edge<A: Axis>(&self, endpoint: Endpoint<A>) -> (r: AxisMask)
        ensures
            r.0 == self.spec_isolate_edge(A::spec_dyn(), endpoint.bound),
    {
        let mut isolated = *self;
        isolated.clear_edge::<A>(endpoint.invert());
        let r = isolated.isolate_axis::<A>();
        proof {
            lemma_vertex_mask_bits(self.0);
        }
        r
    }

    /// The [`AxisMask`] bits of the transpose-axis endpoints of any vertex set on an edge of an
    /// axis.
    pub open spec fn spec_isolate_axis(self, a: DynAxis) -> u8 {
        (if self.0 & Self::spec_edge_bits(a.spec_t(), EndpointBound::Lower) != 0 {
            AxisMask::spec_end_bit(a.spec_t(), EndpointBound::Lower)
        } else {
            0u8
        }) | (if self.0 & Self::spec_edge_bits(a.spec_t(), EndpointBound::Upper) != 0 {
            AxisMask::spec_end_bit(a.spec_t(), EndpointBound::Upper)
        } else {
            0u8
        })
    }

    /// Returns an [`AxisMask`] retaining only the endpoints of edges on the given axis. The
    /// returned [`AxisMask`] retains bits on the **transpose** axis. This is equivalent to
    /// [`VertexMask::isolate_edge`] where only a single edge on the given axis is present.
    pub fn isolate_axis<A: AxisValue>(&self) -> (r: AxisMask)
        ensures
            r.0 == self.spec_isolate_axis(A::spec_dyn()),
    {
        let mut mask = AxisMask::NONE();
        match A::into_dyn() {
            DynAxis::X => {
                if self.0 & Self::TOP().0 != 0 {
                    mask.0 = mask.0 | AxisMask::TOP().0;
                }
                if self.0 & Self::BOTTOM().0 != 0 {
                    mask.0 = mask.0 | AxisMask::BOTTOM().0;
                }
            },
            DynAxis::Y => {
                if self.0 & Self::LEFT().0 != 0 {
                    mask.0 = mask.0 | AxisMask::LEFT().0;
                }
                if self.0 & Self::RIGHT().0 != 0 {
                    mask.0 = mask.0 | AxisMask::RIGHT().0;
                }
            },
        }
        proof {
            lemma_vertex_mask_bits(self.0);
        }
        mask
    }

    /// Clear the bits of the edge at the given endpoint.
    pub fn clear_edge<A: AxisValue>(&mut self, end: Endpoint<A>)
        ensures
            final(self).0 == old(self).0 & !Self::spec_edge_bits(A::spec_dyn(), end.bound),
    {
        self.0 = self.0 & !Self::from_axis(end).0;
    }

    /// The bound on axis `a` of the vertex opposite the hypotenuse of a triangle mask.
    pub open spec fn spec_tri_endpoint(bits: u8, a: DynAxis) -> Option<EndpointBound> {
        match Self::spec_tri_vertex(bits) {
            Some(v) => Some(
                if (match a {
                    DynAxis::X => v == 1 || v == 2,
                    DynAxis::Y => v == 1 || v == 4,
                }) {
                    EndpointBound::Lower
                } else {
                    EndpointBound::Upper
                },
            ),
            None => None,
        }
    }

    /// For the given axis `A`, return the endpoint of the vertex opposite the hypotenuse.
    /// Returns `None` if `self` is not a triangle.
    pub fn tri_endpoint<A: AxisValue>(&self) -> (r: Option<Endpoint<A>>)
        ensures
            r == (match Self::spec_tri_endpoint(self.0, A::spec_dyn()) {
                Some(b) => Some(Endpoint::<A>::spec_of(b)),
                None => None,
            }),
    {
        let a = A::into_dyn();
        if self.0 == Self::BOTTOM_RIGHT_EXCL().0 {
            Some(Endpoint::LOWER())
        } else if self.0 == Self::TOP_RIGHT_EXCL().0 {
            match a {
                DynAxis::X => Some(Endpoint::LOWER()),
                DynAxis::Y => Some(Endpoint::UPPER()),
            }
        } else if self.0 == Self::BOTTOM_LEFT_EXCL().0 {
            match a {
                DynAxis::X => Some(Endpoint::UPPER()),
                DynAxis::Y => Some(Endpoint::LOWER()),
            }
        } else if self.0 == Self::TOP_LEFT_EXCL().0 {
            Some(Endpoint::UPPER())
        } else {
            None
        }
    }

    /// Select the bit of the vertex opposite the hypotenuse. Returns `None` if `self` is not a
    /// triangle.
    pub fn tri_mask(&self) -> (r: Option<VertexMask>)
        ensures
            r == (match Self::spec_tri_vertex(self.0) {
                Some(v) => Some(VertexMask(v)),
                None => None,
            }),
    {
        if self.0 == Self::BOTTOM_RIGHT_EXCL().0 {
            Some(Self::TOP_LEFT_INCL())
        } else if self.0 == Self::TOP_RIGHT_EXCL().0 {
            Some(Self::BOTTOM_LEFT_INCL())
        } else if self.0 == Self::BOTTOM_LEFT_EXCL().0 {
            Some(Self::TOP_RIGHT_INCL())
        } else if self.0 == Self::TOP_LEFT_EXCL().0 {
            Some(Self::BOTTOM_RIGHT_INCL())
        } else {
            None
        }
    }

    /// The bits of a mask with the bottom-left and top-right vertices swapped.
    pub open spec fn spec_transpose(x: u8) -> u8 {
        (x & 9) | (if x & 6 == 2 || x & 6 == 4 {
            (x & 6) ^ 6
        } else {
            x & 6
        })
    }

    /// Transpose the vertices of each axis.
    pub fn transpose(self) -> (r: Self)
        ensures
            r.0 == Self::spec_transpose(self.0),
    {
        let v = self.0 & 0b0110;
        let mid = if v == 0b0010 || v == 0b0100 {
            v ^ 0b0110
        } else {
            v
        };
        VertexMask((self.0 & 0b1001) | mid)
    }

    /// The bits of the edge at bound `b` of axis `a`, compacted to the two lowest bits (for
    /// the upper bound, also the high nibble shifted down by two).
    pub open spec fn spec_compact(x: u8, a: DynAxis, b: EndpointBound) -> u8 {
        let m = match a {
            DynAxis::X => x,
            DynAxis::Y => Self::spec_transpose(x),
        };
        match b {
            EndpointBound::Lower => m & 3,
            EndpointBound::Upper => m >> 2u8,
        }
    }

    /// Isolate the bits of the given axis `A` and endpoint, compacting to the right. Returns a
    /// `u8`.
    pub fn compact<A: AxisValue>(self, end: Endpoint<A>) -> (r: u8)
        ensures
            r == Self::spec_compact(self.0, A::spec_dyn(), end.bound),
    {
        let mask = match A::into_dyn() {
            DynAxis::X => self,
            DynAxis::Y => self.transpose(),
        };
        match end.bound {
            EndpointBound::Lower => mask.0 & 0b0011,
            EndpointBound::Upper => mask.0 >> 2u8,
        }
    }

    /// Return the `VertexMask` as a `u8` bitmask.
    pub fn into_raw(self) -> (r: u8)
        ensures
            r == self.0,
    {
        self.0
    }

    /// Returns `true` if any bit is set.
    pub fn any(&self) -> (r: bool)
        ensures
            r == (self.0 != 0),
    {
        self.0 != 0
    }

    /// Returns `true` if all bits are set (and no other).
    pub fn all(&self) -> (r: bool)
        ensures
            r == (self.0 == 15),
    {
        self.0 == Self::ALL().0
    }

    /// Returns `true` if no bits are set.
    pub fn none(&self) -> (r: bool)
        ensures
            r == (self.0 == 0),
    {
        self.0 == Self::NONE().0
    }
}

proof fn lemma_nibble_bits(x: u8)
    by (bit_vector)
    requires
        x < 16,
    ensures
        VertexMask::spec_transpose(VertexMask::spec_transpose(x)) == x,
        (VertexMask::spec_transpose(x) & 1u8 != 0) == (x & 1u8 != 0),
        (VertexMask::spec_transpose(x) & 2u8 != 0) == (x & 4u8 != 0),
        (VertexMask::spec_transpose(x) & 4u8 != 0) == (x & 2u8 != 0),
        (VertexMask::spec_transpose(x) & 8u8 != 0) == (x & 8u8 != 0),
        ((VertexMask::spec_transpose(x) & 3u8) & 1u8 != 0) == (x & 1u8 != 0),
        ((VertexMask::spec_transpose(x) & 3u8) & 2u8 != 0) == (x & 4u8 != 0),
        ((VertexMask::spec_transpose(x) >> 2u8) & 1u8 != 0) == (x & 2u8 != 0),
        ((VertexMask::spec_transpose(x) >> 2u8) & 2u8 != 0) == (x & 8u8 != 0),
        VertexMask::spec_transpose(x) >> 2u8 < 4u8,
        ((x & 3u8) & 1u8 != 0) == (x & 1u8 != 0),
        ((x & 3u8) & 2u8 != 0) == (x & 2u8 != 0),
        ((x >> 2u8) & 1u8 != 0) == (x & 4u8 != 0),
        ((x >> 2u8) & 2u8 != 0) == (x & 8u8 != 0),
        x >> 2u8 < 4u8,
        x & 3u8 < 4u8,
        VertexMask::spec_transpose(x) & 3u8 < 4u8,
{
}

/// A mask of a single vertex has that vertex set and no other; the vertex of bound `b` of
/// axis `a` and `tb` of its transpose is the vertex of bound `tb` of the transpose and `b` of
/// the axis.
pub proof fn lemma_single_vertex(a: DynAxis, b: EndpointBound, tb: EndpointBound, b2: EndpointBound, tb2: EndpointBound)
    ensures
        VertexMask(VertexMask::spec_axis_vertex_bit(a, b, tb)).spec_vertex_set(a, b2, tb2) <==> (b2
            == b && tb2 == tb),
        VertexMask::spec_axis_vertex_bit(a, b, tb) == VertexMask::spec_axis_vertex_bit(
            a.spec_t(),
            tb,
            b,
        ),
{
    assert(1u8 & 2u8 == 0 && 1u8 & 4u8 == 0 && 1u8 & 8u8 == 0 && 2u8 & 4u8 == 0 && 2u8 & 8u8 == 0
        && 4u8 & 8u8 == 0 && 1u8 & 1u8 != 0 && 2u8 & 2u8 != 0 && 4u8 & 4u8 != 0 && 8u8 & 8u8 != 0
        && 2u8 & 1u8 == 0 && 4u8 & 1u8 == 0 && 8u8 & 1u8 == 0 && 4u8 & 2u8 == 0 && 8u8 & 2u8 == 0
        && 8u8 & 4u8 == 0) by (bit_vector);
}

/// Transposing a vertex mask twice gives back its four vertex bits.
pub proof fn lemma_transpose_involutive(m: VertexMask)
    ensures
        VertexMask::spec_transpose(VertexMask::spec_transpose(m.0)) == m.0 & 15u8,
{
    let x = m.0;
    assert(VertexMask::spec_transpose(x) == VertexMask::spec_transpose(x & 15u8)) by (bit_vector);
    assert(x & 15u8 < 16u8) by (bit_vector);
    lemma_nibble_bits(x & 15u8);
}

/// Transposing a vertex mask swaps the bounds of each vertex: the vertex at bound `b` of axis
/// `a` and `tb` of its transpose becomes the vertex at bound `b` of the transpose axis and `tb`
/// of the axis.
pub proof fn lemma_transpose_vertex(m: VertexMask, a: DynAxis, b: EndpointBound, tb: EndpointBound)
    requires
        m.0 < 16,
    ensures
        VertexMask(VertexMask::spec_transpose(m.0)).spec_vertex_set(a.spec_t(), b, tb)
            == m.spec_vertex_set(a, b, tb),
{
    lemma_nibble_bits(m.0);
}

/// Compacting an edge of a vertex mask gives the two vertices of the edge: bit `0` for the
/// vertex at the lower bound of the transpose axis, bit `1` for the upper one, and no other bit.
pub proof fn lemma_compact_edge(m: VertexMask, a: DynAxis, b: EndpointBound)
    requires
        m.0 < 16,
    ensures
        VertexMask::spec_compact(m.0, a, b) < 4,
        (VertexMask::spec_compact(m.0, a, b) & 1u8 != 0) == m.spec_vertex_set(
            a,
            b,
            EndpointBound::Lower,
        ),
        (VertexMask::spec_compact(m.0, a, b) & 2u8 != 0) == m.spec_vertex_set(
            a,
            b,
            EndpointBound::Upper,
        ),
{
    lemma_nibble_bits(m.0);
}

/// The vertex opposite the hypotenuse of a triangle is the vertex at the bounds that
/// [`VertexMask::tri_endpoint`] gives on each axis.
pub proof fn lemma_tri_vertex_endpoints(m: VertexMask)
    ensures
        VertexMask::spec_tri_vertex(m.0) matches Some(v) ==> v == VertexMask::spec_vertex_bit(
            VertexMask::spec_tri_endpoint(m.0, DynAxis::X).unwrap(),
            VertexMask::spec_tri_endpoint(m.0, DynAxis::Y).unwrap(),
        ),
        VertexMask::spec_tri_vertex(m.0).is_some() == VertexMask::spec_tri_endpoint(
            m.0,
            DynAxis::X,
        ).is_some(),
        VertexMask::spec_tri_vertex(m.0).is_some() == VertexMask::spec_tri_endpoint(
            m.0,
            DynAxis::Y,
        ).is_some(),
{
}

/// A triangle is a mask of exactly three of the four vertices; the vertex opposite its
/// hypotenuse is set, and is diagonal to the clear vertex.
pub proof fn lemma_tri_is_three_vertices(m: VertexMask)
    ensures
        VertexMask::spec_tri_vertex(m.0).is_some() == (m.0 < 16 && spec_count_ones(m.0) == 3),
        VertexMask::spec_tri_vertex(m.0) matches Some(v) ==> v & m.0 != 0 && (15 - m.0) as u8
            == (if v == 1 {
            8u8
        } else if v == 2 {
            4u8
        } else if v == 4 {
            2u8
        } else {
            1u8
        }),
{
    lemma_count_ones_nibble();
    let x = m.0;
    if x < 16 {
        assert(x == 0 || x == 1 || x == 2 || x == 3 || x == 4 || x == 5 || x == 6 || x == 7 || x
            == 8 || x == 9 || x == 10 || x == 11 || x == 12 || x == 13 || x == 14 || x == 15);
        if x == 7 || x == 11 || x == 13 || x == 14 {
            assert(spec_count_ones(x) == 3);
        } else {
            assert(spec_count_ones(x) != 3);
        }
    }
    assert(1u8 & 7u8 != 0 && 2u8 & 11u8 != 0 && 4u8 & 13u8 != 0 && 8u8 & 14u8 != 0)
        by (bit_vector);
}

/// The vertex mask of a single axis endpoint is the edge at that endpoint.
pub proof fn lemma_from_axismask_edge(a: DynAxis, b: EndpointBound)
    ensures
        VertexMask::spec_from_axismask(AxisMask::spec_end_bit(a, b)) == VertexMask::spec_edge_bits(
            a,
            b,
        ),
{
}

proof fn lemma_count_ones_nibble()
    ensures
        spec_count_ones(0) == 0,
        spec_count_ones(1) == 1,
        spec_count_ones(2) == 1,
        spec_count_ones(3) == 2,
        spec_count_ones(4) == 1,
        spec_count_ones(5) == 2,
        spec_count_ones(6) == 2,
        spec_count_ones(7) == 3,
        spec_count_ones(8) == 1,
        spec_count_ones(9) == 2,
        spec_count_ones(10) == 2,
        spec_count_ones(11) == 3,
        spec_count_ones(12) == 2,
        spec_count_ones(13) == 3,
        spec_count_ones(14) == 3,
        spec_count_ones(15) == 4,
{
    assert(spec_count_ones(0) == 0);
    assert(spec_count_ones(1) == 1);
    assert(spec_count_ones(2) == 1);
    assert(spec_count_ones(3) == 2);
    assert(spec_count_ones(4) == 1);
    assert(spec_count_ones(5) == 2);
    assert(spec_count_ones(6) == 2);
    assert(spec_count_ones(7) == 3);
    assert(spec_count_ones(8) == 1);
    assert(spec_count_ones(9) == 2);
    assert(spec_count_ones(10) == 2);
    assert(spec_count_ones(11) == 3);
    assert(spec_count_ones(12) == 2);
    assert(spec_count_ones(13) == 3);
    assert(spec_count_ones(14) == 3);
    assert(spec_count_ones(15) == 4);
}

proof fn lemma_count_two_end_bits(m: u8)
    requires
        m == 0 || m == 1 || m == 2 || m == 3 || m == 4 || m == 8 || m == 12,
    ensures
        (spec_count_ones(m) == 2) == (m == 3 || m == 12),
        (spec_count_ones(m) != 0) == (m != 0),
{
    reveal_with_fuel(spec_count_ones, 5);
}

proof fn lemma_vertex_mask_bits(x: u8)
    by (bit_vector)
    ensures
        ((x & !12u8) & 5u8 != 0) == (x & 1u8 != 0),
        ((x & !12u8) & 10u8 != 0) == (x & 2u8 != 0),
        ((x & !3u8) & 5u8 != 0) == (x & 4u8 != 0),
        ((x & !3u8) & 10u8 != 0) == (x & 8u8 != 0),
        ((x & !10u8) & 3u8 != 0) == (x & 1u8 != 0),
        ((x & !10u8) & 12u8 != 0) == (x & 4u8 != 0),
        ((x & !5u8) & 3u8 != 0) == (x & 2u8 != 0),
        ((x & !5u8) & 12u8 != 0) == (x & 8u8 != 0),
        0u8 | 4u8 == 4u8,
        0u8 | 8u8 == 8u8,
        0u8 | 1u8 == 1u8,
        0u8 | 2u8 == 2u8,
        4u8 | 8u8 == 12u8,
        1u8 | 2u8 == 3u8,
        0u8 | 0u8 == 0u8,
        4u8 | 0u8 == 4u8,
        1u8 | 0u8 == 1u8,
        8u8 | 0u8 == 8u8,
        2u8 | 0u8 == 2u8,
{
}

} // verus!
