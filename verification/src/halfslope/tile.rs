use vstd::prelude::*;
use vstd::std_specs::convert::{FromSpecImpl, TryFromSpecImpl};

use crate::halfslope::vertex_mask::VertexMask;
use crate::plane::axis::DynAxis;
use crate::plane::endpoint::EndpointBound;

verus! {

/// # VertexTile
///
/// Implemented on tilemap elements that can be represented as a collision [`VertexMask`].
pub trait VertexTile {
    /// The collision mask of the tile.
    spec fn spec_mask(&self) -> VertexMask;

    /// Return the collision mask of the tile.
    fn mask(&self) -> (r: VertexMask)
        ensures
            r == self.spec_mask(),
    ;
}

impl VertexTile for u8 {
    open spec fn spec_mask(&self) -> VertexMask {
        VertexMask(*self)
    }

    fn mask(&self) -> (r: VertexMask) {
        VertexMask::from_bits(*self)
    }
}

impl VertexTile for VertexPattern {
    open spec fn spec_mask(&self) -> VertexMask {
        VertexMask(self.spec_bits())
    }

    fn mask(&self) -> (r: VertexMask) {
        self.into_mask()
    }
}

impl VertexTile for VertexMask {
    open spec fn spec_mask(&self) -> VertexMask {
        *self
    }

    fn mask(&self) -> (r: VertexMask) {
        *self
    }
}

/// # VertexPattern
///
/// An `enum` of all valid [`VertexMask`] variants.
#[derive(Debug, Default, PartialEq, Eq, Clone, Copy, Structural)]
pub enum VertexPattern {
    /// No collision.
    #[default]
    Empty,
    /// Collides with the top, left, bottom and right edge.
    Full,
    /// Collides with the top edge.
    TopOneway,
    /// Collides with the left edge.
    LeftOneway,
    /// Collides with the bottom edge.
    BottomOneway,
    /// Collides with the right edge.
    RightOneway,
    /// Collides with the top, left and hypotenuse edges.
    TopLeftTri,
    /// Collides with the bottom, left and hypotenuse edges.
    BottomLeftTri,
    /// Collides with the top, right and hypotenuse edges.
    TopRightTri,
    /// Collides with the bottom, right and hypotenuse edges.
    BottomRightTri,
}

impl VertexPattern {
    /// The mask bits of a pattern.
    pub open spec fn spec_bits(self) -> u8 {
        match self {
            VertexPattern::Empty => 0,
            VertexPattern::Full => 15,
            VertexPattern::TopOneway => 5,
            VertexPattern::LeftOneway => 3,
            VertexPattern::BottomOneway => 10,
            VertexPattern::RightOneway => 12,
            VertexPattern::TopLeftTri => 7,
            VertexPattern::BottomLeftTri => 11,
            VertexPattern::TopRightTri => 13,
            VertexPattern::BottomRightTri => 14,
        }
    }

    /// The pattern of mask bits, if any.
    pub open spec fn spec_from_bits(bits: u8) -> Option<VertexPattern> {
        if bits == 0 {
            Some(VertexPattern::Empty)
        } else if bits == 15 {
            Some(VertexPattern::Full)
        } else if bits == 5 {
            Some(VertexPattern::TopOneway)
        } else if bits == 3 {
            Some(VertexPattern::LeftOneway)
        } else if bits == 10 {
            Some(VertexPattern::BottomOneway)
        } else if bits == 12 {
            Some(VertexPattern::RightOneway)
        } else if bits == 7 {
            Some(VertexPattern::TopLeftTri)
        } else if bits == 11 {
            Some(VertexPattern::BottomLeftTri)
        } else if bits == 13 {
            Some(VertexPattern::TopRightTri)
        } else if bits == 14 {
            Some(VertexPattern::BottomRightTri)
        } else {
            None
        }
    }

    /// Represent the pattern as a [`VertexMask`].
    pub fn into_mask(self) -> (r: VertexMask)
        ensures
            r.0 == self.spec_bits(),
    {
        let bits: u8 = match self {
            VertexPattern::Empty => 0,
            VertexPattern::Full => 15,
            VertexPattern::TopOneway => 5,
            VertexPattern::LeftOneway => 3,
            VertexPattern::BottomOneway => 10,
            VertexPattern::RightOneway => 12,
            VertexPattern::TopLeftTri => 7,
            VertexPattern::BottomLeftTri => 11,
            VertexPattern::TopRightTri => 13,
            VertexPattern::BottomRightTri => 14,
        };
        VertexMask::from_bits(bits)
    }
}

/// The error of converting a mask that no [`VertexPattern`] stands for.
#[derive(Debug, Clone, Copy, Eq, PartialEq, Structural)]
pub struct VertexTileConversionError(pub VertexMask);

impl VertexTileConversionError {
    /// The mask that could not be converted.
    pub fn mask(&self) -> (r: VertexMask)
        ensures
            r == self.0,
    {
        self.0
    }
}

impl TryFrom<u8> for VertexPattern {
    type Error = VertexTileConversionError;

    fn try_from(mask: u8) -> (r: Result<Self, Self::Error>)
        ensures
            r == (match Self::spec_from_bits(mask) {
                Some(p) => Ok(p),
                None => Err(VertexTileConversionError(VertexMask(mask))),
            }),
    {
        if mask == 0 {
            Ok(VertexPattern::Empty)
        } else if mask == 15 {
            Ok(VertexPattern::Full)
        } else if mask == 5 {
            Ok(VertexPattern::TopOneway)
        } else if mask == 3 {
            Ok(VertexPattern::LeftOneway)
        } else if mask == 10 {
            Ok(VertexPattern::BottomOneway)
        } else if mask == 12 {
            Ok(VertexPattern::RightOneway)
        } else if mask == 7 {
            Ok(VertexPattern::TopLeftTri)
        } else if mask == 11 {
            Ok(VertexPattern::BottomLeftTri)
        } else if mask == 13 {
            Ok(VertexPattern::TopRightTri)
        } else if mask == 14 {
            Ok(VertexPattern::BottomRightTri)
        } else {
            Err(VertexTileConversionError(VertexMask::from_bits(mask)))
        }
    }
}

impl TryFromSpecImpl<u8> for VertexPattern {
    open spec fn obeys_try_from_spec() -> bool {
        true
    }

    open spec fn try_from_spec(mask: u8) -> Result<Self, Self::Error> {
        match Self::spec_from_bits(mask) {
            Some(p) => Ok(p),
            None => Err(VertexTileConversionError(VertexMask(mask))),
        }
    }
}

/// Converting a pattern to its mask bits and back gives the pattern; a mask converts to a
/// pattern exactly when it is the mask of that pattern.
pub proof fn lemma_pattern_round_trip(p: VertexPattern, bits: u8)
    ensures
        VertexPattern::spec_from_bits(p.spec_bits()) == Some(p),
        VertexPattern::spec_from_bits(bits) matches Some(q) ==> q.spec_bits() == bits,
{
}

/// # VertexEdge
///
/// Two adjacent [`VertexMask`] vertices of an edge.
#[derive(Debug, Default, PartialEq, Eq, Clone, Copy, Structural)]
pub enum VertexEdge {
    /// No vertices.
    #[default]
    Empty,
    /// A triangle tile at the lower endpoint.
    Lower,
    /// A triangle tile at the upper endpoint.
    Upper,
    /// A solid edge.
    All,
}

impl VertexEdge {
    /// The edge of the two lowest bits of a value.
    pub open spec fn spec_from_bits(value: u8) -> VertexEdge {
        let v = value % 4;
        if v == 0 {
            VertexEdge::Empty
        } else if v == 1 {
            VertexEdge::Lower
        } else if v == 2 {
            VertexEdge::Upper
        } else {
            VertexEdge::All
        }
    }
}

impl From<u8> for VertexEdge {
    fn from(value: u8) -> (r: Self)
        ensures
            r == Self::spec_from_bits(value),
    {
        let v = value & 0b11;
        assert(value & 3u8 == value % 4) by (bit_vector);
        if v == 0 {
            VertexEdge::Empty
        } else if v == 1 {
            VertexEdge::Lower
        } else if v == 2 {
            VertexEdge::Upper
        } else {
            VertexEdge::All
        }
    }
}

impl FromSpecImpl<u8> for VertexEdge {
    open spec fn obeys_from_spec() -> bool {
        true
    }

    open spec fn from_spec(value: u8) -> Self {
        Self::spec_from_bits(value)
    }
}

/// Each pattern's mask holds the vertices of the edges that the pattern is named for, the
/// top-left vertex being the lower bound of both axes: a one-way pattern the two vertices of its
/// edge; a triangle the three vertices of its two edges, its right angle at the named corner
/// (the vertex opposite the hypotenuse) and the opposite corner clear; `Full` all four vertices
/// and `Empty` none.
pub proof fn lemma_pattern_vertices(p: VertexPattern)
    ensures
        p.spec_bits() < 16,
        ({
            let m = VertexMask(p.spec_bits());
            let lo = EndpointBound::Lower;
            let up = EndpointBound::Upper;
            let tl = m.spec_vertex_set(DynAxis::X, lo, lo);
            let bl = m.spec_vertex_set(DynAxis::X, lo, up);
            let tr = m.spec_vertex_set(DynAxis::X, up, lo);
            let br = m.spec_vertex_set(DynAxis::X, up, up);
            match p {
                VertexPattern::Empty => !tl && !bl && !tr && !br,
                VertexPattern::Full => tl && bl && tr && br,
                VertexPattern::TopOneway => tl && tr && !bl && !br,
                VertexPattern::LeftOneway => tl && bl && !tr && !br,
                VertexPattern::BottomOneway => bl && br && !tl && !tr,
                VertexPattern::RightOneway => tr && br && !tl && !bl,
                VertexPattern::TopLeftTri => tl && tr && bl && !br && VertexMask::spec_tri_vertex(
                    m.0,
                ) == Some(VertexMask::spec_vertex_bit(lo, lo)),
                VertexPattern::BottomLeftTri => bl && tl && br && !tr && VertexMask::spec_tri_vertex(
                    m.0,
                ) == Some(VertexMask::spec_vertex_bit(lo, up)),
                VertexPattern::TopRightTri => tr && tl && br && !bl && VertexMask::spec_tri_vertex(
                    m.0,
                ) == Some(VertexMask::spec_vertex_bit(up, lo)),
                VertexPattern::BottomRightTri => br && bl && tr && !tl && VertexMask::spec_tri_vertex(
                    m.0,
                ) == Some(VertexMask::spec_vertex_bit(up, up)),
            }
        }),
{
    lemma_nibble_vertices(p.spec_bits());
}

/// The four vertex bits of each mask of a pattern.
proof fn lemma_nibble_vertices(x: u8)
    by (bit_vector)
    ensures
        x == 0u8 ==> x & 1u8 == 0u8 && x & 2u8 == 0u8 && x & 4u8 == 0u8 && x & 8u8 == 0u8,
        x == 15u8 ==> x & 1u8 != 0u8 && x & 2u8 != 0u8 && x & 4u8 != 0u8 && x & 8u8 != 0u8,
        x == 5u8 ==> x & 1u8 != 0u8 && x & 2u8 == 0u8 && x & 4u8 != 0u8 && x & 8u8 == 0u8,
        x == 3u8 ==> x & 1u8 != 0u8 && x & 2u8 != 0u8 && x & 4u8 == 0u8 && x & 8u8 == 0u8,
        x == 10u8 ==> x & 1u8 == 0u8 && x & 2u8 != 0u8 && x & 4u8 == 0u8 && x & 8u8 != 0u8,
        x == 12u8 ==> x & 1u8 == 0u8 && x & 2u8 == 0u8 && x & 4u8 != 0u8 && x & 8u8 != 0u8,
        x == 7u8 ==> x & 1u8 != 0u8 && x & 2u8 != 0u8 && x & 4u8 != 0u8 && x & 8u8 == 0u8,
        x == 11u8 ==> x & 1u8 != 0u8 && x & 2u8 != 0u8 && x & 4u8 == 0u8 && x & 8u8 != 0u8,
        x == 13u8 ==> x & 1u8 != 0u8 && x & 2u8 == 0u8 && x & 4u8 != 0u8 && x & 8u8 != 0u8,
        x == 14u8 ==> x & 1u8 == 0u8 && x & 2u8 != 0u8 && x & 4u8 != 0u8 && x & 8u8 != 0u8,
{
}

} // verus!
