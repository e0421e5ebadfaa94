use core::marker::PhantomData;
use core::ops::{ControlFlow, Range};

use vstd::prelude::*;
use vstd::std_specs::convert::{FromSpecImpl, IntoSpec};

use crate::bitseq::{bitseq_bits, bv_all, bv_any_in, bv_len, bv_load_pair, bv_or_byte, bv_repeat, bv_set, spec_byte_bit, spec_max_bits, BitSeq};
use crate::halfslope::tile::{VertexEdge, VertexTile};
use crate::halfslope::vertex_mask::{lemma_compact_edge, spec_count_ones, VertexMask};
use crate::plane::axis::{Axis, AxisValue, DynAxis};
use crate::plane::axis_vec::AxisVec;
use crate::plane::endpoint::{Endpoint, EndpointBound};
use crate::plane::endpoint_pair::EndpointPair;
use crate::solid::collision::{offset_index, spec_offset_index};
use crate::view::index::{range_len, spec_range_len, SliceIndex};
use crate::view::inspect::{spec_inspectable, TileMapInspect};
use crate::view::tilemap::{spec_tile_on, TileMap, TileMapView};

verus! {

/// # Collision
///
/// Collision data and context for displacement.
#[derive(Debug, Clone, PartialEq, Eq)]
pub enum Collision<A: Axis> {
    /// Collided with a tile bound: the [`EdgeRange`] on the **transpose** axis of displacement.
    TileBound(EdgeRange<A>),
    /// Collided with a map bound.
    MapBound,
    /// Collided with a triangle hypotenuse.
    TriangleHypotenuse,
    /// Collided with the narrowest extreme of a triangle and a tile/map bound.
    TriangleApex,
    /// Collided at the narrowest extreme of two adjacent triangles.
    WedgeApex,
}

impl<A: Axis> From<Collision<A>> for ControlFlow<Collision<A>> {
    fn from(c: Collision<A>) -> (r: Self) {
        ControlFlow::Break(c)
    }
}

impl<A: Axis> FromSpecImpl<Collision<A>> for ControlFlow<Collision<A>> {
    open spec fn obeys_from_spec() -> bool {
        true
    }

    open spec fn from_spec(c: Collision<A>) -> Self {
        ControlFlow::Break(c)
    }
}

/// The two-bit edge of tile `k` of an inspected slice (`spec_compact` of its mask on the
/// transpose axis and the given bound), and whether it is kept: a oneway tile (of two vertices)
/// is kept only where both vertices are on that edge.
pub open spec fn spec_edge_contrib<M: TileMap>(
    map: &M,
    a: DynAxis,
    t_index: int,
    start: int,
    sign: EndpointBound,
    k: int,
) -> (bool, u8) where M::El: VertexTile {
    let mask = spec_tile_on(map, a, t_index, start + k).spec_mask().0;
    let c = VertexMask::spec_compact(mask, a.spec_t(), sign);
    (!(spec_count_ones(mask) == 2) || spec_count_ones(c) == 2, c)
}

/// Bit `j` of the edge array after inserting the edges of the first `k` tiles of an inspected
/// slice, tile `i` being or-ed in at bit `2 * i`.
pub open spec fn spec_edge_bit<M: TileMap>(
    map: &M,
    a: DynAxis,
    t_index: int,
    start: int,
    sign: EndpointBound,
    k: nat,
    j: int,
) -> bool where M::El: VertexTile
    decreases k,
{
    if k == 0 {
        false
    } else {
        let i = k - 1;
        let (keep, c) = spec_edge_contrib(map, a, t_index, start, sign, i);
        spec_edge_bit(map, a, t_index, start, sign, (k - 1) as nat, j) || (keep && 2 * i <= j < 2
            * i + 8 && spec_byte_bit(c, j - 2 * i))
    }
}

/// Every tile of the first `n` tiles of the slice has a mask of four vertex bits.
pub open spec fn spec_tiles_valid<M: TileMap>(map: &M, a: DynAxis, t_index: int, start: int, n: nat) -> bool where M::El: VertexTile {
    forall|k: int| 0 <= k < n ==> (#[trigger] spec_tile_on(map, a, t_index, start + k)).spec_mask().0 < 16
}

/// The bits `0`, `1` and those above of a two-bit value.
proof fn lemma_two_bit_byte(c: u8, d: u8)
    by (bit_vector)
    requires
        c < 4,
        d < 8,
    ensures
        d == 0 ==> (((c >> d) & 1u8 == 1u8) == (c & 1u8 != 0)),
        d == 1 ==> (((c >> d) & 1u8 == 1u8) == (c & 2u8 != 0)),
        d >= 2 ==> (c >> d) & 1u8 != 1u8,
{
}

/// The edges of `n` tiles of four vertex bits set no bit from `2 * n` on.
proof fn lemma_edge_bits_bounded<M: TileMap>(
    map: &M,
    a: DynAxis,
    t_index: int,
    start: int,
    sign: EndpointBound,
    n: nat,
    j: int,
) where M::El: VertexTile
    requires
        spec_tiles_valid(map, a, t_index, start, n),
        j >= 2 * n,
    ensures
        !spec_edge_bit(map, a, t_index, start, sign, n, j),
    decreases n,
{
    if n > 0 {
        let i = n - 1;
        lemma_edge_bits_bounded(map, a, t_index, start, sign, (n - 1) as nat, j);
        let m = VertexMask(spec_tile_on(map, a, t_index, start + i).spec_mask().0);
        lemma_compact_edge(m, a.spec_t(), sign);
        if j - 2 * i < 8 {
            lemma_two_bit_byte(VertexMask::spec_compact(m.0, a.spec_t(), sign), (j - 2 * i) as u8);
        }
    }
}

/// Inspecting the edge of a slice of tiles of four vertex bits each: tile `k` of the slice gives
/// bits `2 * k` and `2 * k + 1`, its vertices at the lower and upper bound of the transpose axis on
/// the inspected edge (`sign` of the slice axis' transpose), where the tile is kept (a oneway tile
/// only where both of its vertices are on that edge).
pub proof fn lemma_inspected_edge_bits<M: TileMap>(
    map: &M,
    a: DynAxis,
    t_index: int,
    start: int,
    sign: EndpointBound,
    n: nat,
) where M::El: VertexTile
    requires
        spec_tiles_valid(map, a, t_index, start, n),
    ensures
        forall|j: int|
            0 <= j < 2 * n ==> #[trigger] spec_edge_bit(map, a, t_index, start, sign, n, j) == (
            spec_edge_contrib(map, a, t_index, start, sign, j / 2).0 && VertexMask(
                spec_tile_on(map, a, t_index, start + j / 2).spec_mask().0,
            ).spec_vertex_set(
                a.spec_t(),
                sign,
                if j % 2 == 0 {
                    EndpointBound::Lower
                } else {
                    EndpointBound::Upper
                },
            )),
    decreases n,
{
    if n > 0 {
        let i = n - 1;
        lemma_inspected_edge_bits(map, a, t_index, start, sign, (n - 1) as nat);
        let m = VertexMask(spec_tile_on(map, a, t_index, start + i).spec_mask().0);
        lemma_compact_edge(m, a.spec_t(), sign);
        let c = VertexMask::spec_compact(m.0, a.spec_t(), sign);
        assert forall|j: int| 0 <= j < 2 * n implies #[trigger] spec_edge_bit(
            map,
            a,
            t_index,
            start,
            sign,
            n,
            j,
        ) == (spec_edge_contrib(map, a, t_index, start, sign, j / 2).0 && VertexMask(
            spec_tile_on(map, a, t_index, start + j / 2).spec_mask().0,
        ).spec_vertex_set(
            a.spec_t(),
            sign,
            if j % 2 == 0 {
                EndpointBound::Lower
            } else {
                EndpointBound::Upper
            },
        )) by {
            let prev = spec_edge_bit(map, a, t_index, start, sign, (n - 1) as nat, j);
            let (keep, cc) = spec_edge_contrib(map, a, t_index, start, sign, i);
            assert(cc == c);
            assert(spec_edge_bit(map, a, t_index, start, sign, n, j) == (prev || (keep && 2 * i <= j
                < 2 * i + 8 && spec_byte_bit(c, j - 2 * i))));
            if j >= 2 * i {
                lemma_edge_bits_bounded(map, a, t_index, start, sign, (n - 1) as nat, j);
                lemma_two_bit_byte(c, (j - 2 * i) as u8);
                assert(j / 2 == i);
                assert(spec_byte_bit(c, j - 2 * i) == ((c >> ((j - 2 * i) as u8)) & 1u8 == 1u8));
            } else {
                assert(j / 2 < i);
            }
        }
    }
}

/// # EdgeRange
///
/// The vertices of one endpoint of a tile slice: two bits per in-bound tile (its vertices at the
/// lower and upper bound of axis `A`), with the number of out-of-bound tiles on each endpoint.
#[derive(Debug, PartialEq, Eq)]
pub struct EdgeRange<A: Axis> {
    /// The edge range axis.
    pub axis: PhantomData<A>,
    /// The index of the first tile.
    pub start_idx: AxisVec<i32>,
    /// The number of out-of-bound tiles on each endpoint.
    pub padding: EndpointPair<A, i32>,
    /// The tile bound endpoint on the transpose axis.
    pub t_end: Endpoint<A::T>,
    /// Each vertex as a two bit pair.
    pub array: BitSeq,
}

impl<A: Axis> Clone for EdgeRange<A> {
    fn clone(&self) -> (r: Self)
        ensures
            r.start_idx == self.start_idx,
            r.padding == self.padding,
            r.t_end == self.t_end,
            r.spec_bits() == self.spec_bits(),
    {
        EdgeRange {
            axis: PhantomData,
            start_idx: self.start_idx,
            padding: self.padding,
            t_end: self.t_end,
            array: self.array.clone(),
        }
    }
}

impl<A: Axis> EdgeRange<A> {
    /// The bits of the edge array.
    pub open spec fn spec_bits(&self) -> Seq<bool> {
        bitseq_bits(self.array)
    }

    /// Create a new `EdgeRange` of no vertex from a transpose index, a range and the transpose
    /// endpoint of the vertices.
    pub fn new(t_index: i32, range: Range<i32>, t_end: Endpoint<A::T>) -> (r: Self)
        requires
            t_index >= 0,
            range.start >= 0,
            2 * spec_range_len(range) <= spec_max_bits(),
        ensures
            r.start_idx == AxisVec::<i32>::spec_new_mapped(A::spec_dyn(), range.start, t_index),
            r.t_end == t_end,
            r.padding.lower == 0 && r.padding.upper == 0,
            r.spec_bits() == Seq::new(2 * spec_range_len(range), |_i: int| false),
    {
        let n = range_len(&range);
        EdgeRange {
            axis: PhantomData,
            start_idx: AxisVec::new_mapped::<A>(range.start, t_index),
            t_end,
            padding: EndpointPair::new(0, 0),
            array: bv_repeat(false, n * 2),
        }
    }

    /// Create a new `EdgeRange` from a starting index, the transpose endpoint of the vertices
    /// and a bit array.
    pub fn from_array<I: Into<AxisVec<i32>>>(index: I, t_end: Endpoint<A::T>, array: BitSeq) -> (r: Self)
        ensures
            I::obeys_into_spec() ==> r.start_idx == index.into_spec(),
            r.t_end == t_end,
            r.padding.lower == 0 && r.padding.upper == 0,
            r.array == array,
    {
        EdgeRange { axis: PhantomData, t_end, start_idx: index.into(), array, padding: EndpointPair::new(0, 0) }
    }

    /// Create a new `EdgeRange` of no vertex over the in-bound tiles of a [`SliceIndex`].
    pub fn from_index(index: &SliceIndex<A>) -> (r: Self)
        requires
            index.range.start > i32::MIN,
            i32::MIN < index.range_lmt - index.range.end <= i32::MAX,
            2 * index.range_lmt <= spec_max_bits(),
            index.range_lmt >= 0,
        ensures
            r.start_idx == AxisVec::<i32>::spec_new_mapped(
                A::spec_dyn(),
                if index.range.start > 0 { index.range.start } else { 0 },
                index.t_index as i32,
            ),
            r.t_end == index.end,
            r.padding.lower == (if index.range.start < 0 { -index.range.start } else { 0 }),
            r.padding.upper == (if index.range_lmt - index.range.end < 0 {
                index.range.end - index.range_lmt
            } else {
                0
            }),
            r.spec_bits() == Seq::new(
                2 * spec_range_len(
                    (if index.range.start > 0 { index.range.start } else { 0 })..(if index.range.end
                        < index.range_lmt {
                        index.range.end
                    } else {
                        index.range_lmt
                    }),
                ),
                |_i: int| false,
            ),
    {
        let n = index.len_cropped();
        EdgeRange {
            axis: PhantomData,
            t_end: index.end,
            start_idx: AxisVec::new_mapped::<A>(index.inbound_range_start(), index.t_index as i32),
            array: bv_repeat(false, n * 2),
            padding: index.padding(),
        }
    }

    /// Return the vertex endpoint on the transpose axis.
    pub fn end(&self) -> (r: Endpoint<A::T>)
        ensures
            r == self.t_end,
    {
        self.t_end
    }

    /// Or the bits of `mask` into the array from index `i`.
    pub fn insert_mask(&mut self, i: usize, mask: u8)
        requires
            i <= old(self).spec_bits().len(),
        ensures
            final(self).spec_bits().len() == old(self).spec_bits().len(),
            forall|j: int|
                0 <= j < old(self).spec_bits().len() ==> #[trigger] final(self).spec_bits()[j] == (if i
                    <= j < i + 8 {
                    old(self).spec_bits()[j] || spec_byte_bit(mask, j - i)
                } else {
                    old(self).spec_bits()[j]
                }),
            final(self).start_idx == old(self).start_idx,
            final(self).padding == old(self).padding,
            final(self).t_end == old(self).t_end,
    {
        bv_or_byte(&mut self.array, i, mask);
    }

    /// Return the number of **tiles** in the array.
    pub fn len(&self) -> (r: usize)
        ensures
            r == self.spec_bits().len() / 2,
    {
        bv_len(&self.array) / 2
    }

    /// Whether a vertex other than the two terminating ones is set (for two bits, whether both
    /// are set).
    pub open spec fn spec_inner_collision(&self) -> bool {
        let b = self.spec_bits();
        if b.len() == 2 {
            b[0] && b[1]
        } else {
            exists|k: int| 1 <= k < b.len() - 1 && b[k]
        }
    }

    /// Returns `true` if any non-terminating triangle tile vertex is set.
    pub fn inner_collision(&self) -> (r: bool)
        requires
            self.spec_bits().len() >= 2,
        ensures
            r == self.spec_inner_collision(),
    {
        let len = bv_len(&self.array);
        if len == 2 {
            bv_all(&self.array)
        } else {
            bv_any_in(&self.array, 1, len - 1)
        }
    }

    /// Returns `true` if any vertex is set outside of a terminating triangle tile vertex after
    /// removing `n` **tiles** from the given endpoint.
    pub fn truncated_inner_collision(&self, end: Endpoint<A>, n: usize) -> (r: bool)
        requires
            n <= (usize::MAX - 2) / 2,
        ensures
            ({
                let b = self.spec_bits();
                let m = 2 * n;
                r == (b.len() > m + 2 && (match end.bound {
                    EndpointBound::Lower => exists|k: int| m + 1 <= k < b.len() - 1 && b[k],
                    EndpointBound::Upper => exists|k: int| 1 <= k < b.len() - (m + 1) && b[k],
                }))
            }),
    {
        let len = bv_len(&self.array);
        let m = n * 2;
        let ghost b = self.spec_bits();
        if len <= m + 2 {
            false
        } else {
            match end.bound {
                EndpointBound::Lower => {
                    let r = bv_any_in(&self.array, m + 1, len - 1);
                    r
                },
                EndpointBound::Upper => {
                    let r = bv_any_in(&self.array, 1, len - (m + 1));
                    r
                },
            }
        }
    }

    /// The vertex mask of the terminating triangle vertices: the first tile with only its lower
    /// vertex set and the last with only its upper vertex set.
    pub open spec fn spec_trimask(&self) -> u8 {
        let b = self.spec_bits();
        let first = b[0] && !b[1];
        let last = !b[b.len() - 2] && b[b.len() - 1];
        let t = A::spec_dyn().spec_t();
        let e = self.t_end.bound.spec_invert();
        if first && last {
            VertexMask::spec_edge_bits(t, e)
        } else if first {
            VertexMask::spec_axis_vertex_bit(t, e, EndpointBound::Lower)
        } else if last {
            VertexMask::spec_axis_vertex_bit(t, e, EndpointBound::Upper)
        } else {
            0
        }
    }

    /// Get the vertex mask of the terminating triangle vertices, on the inverse of the
    /// transpose endpoint. Expects no inner collision.
    pub fn trimask(&self) -> (r: VertexMask)
        requires
            self.spec_bits().len() >= 2,
            !self.spec_inner_collision(),
        ensures
            r.0 == self.spec_trimask(),
    {
        let len = bv_len(&self.array);
        let first = bv_get_pair_first(&self.array);
        let last = bv_get_pair_last(&self.array, len);
        let t = A::into_dyn().t();
        let e = self.t_end.bound.invert();
        if first && last {
            VertexMask::from_dyn_edge(t, e)
        } else if first {
            VertexMask::from_dyn_vertex(t, e, EndpointBound::Lower)
        } else if last {
            VertexMask::from_dyn_vertex(t, e, EndpointBound::Upper)
        } else {
            VertexMask::NONE()
        }
    }

    /// Return the `(index, edge)` pairs of the in-bound tiles, the edge being the two vertex
    /// bits of the tile.
    pub fn iter_in_bounds(&self) -> (r: Vec<(AxisVec<i32>, VertexEdge)>)
        requires
            self.spec_bits().len() / 2 <= i32::MAX,
            self.start_idx.spec_get(A::spec_dyn()) + self.spec_bits().len() / 2 <= i32::MAX,
        ensures
            r@.len() == self.spec_bits().len() / 2,
            forall|k: int|
                0 <= k < r@.len() ==> #[trigger] r@[k] == (
                    spec_offset_index(self.start_idx, A::spec_dyn(), k),
                    VertexEdge::spec_from_bits(
                        ((if self.spec_bits()[2 * k] { 1int } else { 0int }) + (if self.spec_bits()[2
                            * k + 1] {
                            2int
                        } else {
                            0int
                        })) as u8,
                    ),
                ),
    {
        let n = bv_len(&self.array) / 2;
        let a = A::into_dyn();
        let mut r: Vec<(AxisVec<i32>, VertexEdge)> = Vec::new();
        let mut k: usize = 0;
        while k < n
            invariant
                k <= n,
                n == self.spec_bits().len() / 2,
                n <= i32::MAX,
                a == A::spec_dyn(),
                self.start_idx.spec_get(a) + n <= i32::MAX,
                r@.len() == k,
                forall|j: int|
                    0 <= j < k ==> #[trigger] r@[j] == (
                        spec_offset_index(self.start_idx, a, j),
                        VertexEdge::spec_from_bits(
                            ((if self.spec_bits()[2 * j] { 1int } else { 0int }) + (if self.spec_bits()[2
                                * j + 1] {
                                2int
                            } else {
                                0int
                            })) as u8,
                        ),
                    ),
            decreases n - k,
        {
            let idx = offset_index(self.start_idx, a, k as i32);
            let bits = bv_load_pair(&self.array, 2 * k);
            r.push((idx, VertexEdge::from(bits)));
            k = k + 1;
        }
        r
    }

    /// Return the `(index, edge)` pairs of all tiles, out-of-bound ones (of no vertex) included.
    pub fn iter_all(&self) -> (r: Vec<(AxisVec<i32>, VertexEdge)>)
        requires
            self.spec_bits().len() / 2 + (if self.padding.upper > 0 {
                self.padding.upper as int
            } else {
                0
            }) <= i32::MAX,
            (if self.padding.lower > 0 { self.padding.lower as int } else { 0 }) + self.spec_bits().len()
                / 2 + (if self.padding.upper > 0 {
                self.padding.upper as int
            } else {
                0
            }) <= usize::MAX,
            self.start_idx.spec_get(A::spec_dyn()) - self.padding.lower >= i32::MIN,
            self.start_idx.spec_get(A::spec_dyn()) + self.spec_bits().len() / 2 + (if self.padding.upper
                > 0 {
                self.padding.upper as int
            } else {
                0
            }) <= i32::MAX,
        ensures
            ({
                let lo = if self.padding.lower > 0 { self.padding.lower as int } else { 0 };
                let up = if self.padding.upper > 0 { self.padding.upper as int } else { 0 };
                let n = (self.spec_bits().len() / 2) as int;
                &&& r@.len() == lo + n + up
                &&& forall|k: int|
                    0 <= k < r@.len() ==> #[trigger] r@[k] == (
                        spec_offset_index(self.start_idx, A::spec_dyn(), k - lo),
                        if lo <= k < lo + n {
                            VertexEdge::spec_from_bits(
                                ((if self.spec_bits()[2 * (k - lo)] { 1int } else { 0int }) + (
                                if self.spec_bits()[2 * (k - lo) + 1] {
                                    2int
                                } else {
                                    0int
                                })) as u8,
                            )
                        } else {
                            VertexEdge::Empty
                        },
                    )
            }),
    {
        let n = bv_len(&self.array) / 2;
        let a = A::into_dyn();
        let start = self.start_idx.get::<A>();
        let lo: i32 = if self.padding.lower > 0 { self.padding.lower } else { 0 };
        let up: i32 = if self.padding.upper > 0 { self.padding.upper } else { 0 };
        let total: usize = lo as usize + n + up as usize;
        let mut r: Vec<(AxisVec<i32>, VertexEdge)> = Vec::new();
        let mut k: usize = 0;
        while k < total
            invariant
                k <= total,
                total == lo + n + up,
                0 <= lo,
                0 <= up,
                n == self.spec_bits().len() / 2,
                a == A::spec_dyn(),
                start == self.start_idx.spec_get(a),
                start - lo >= i32::MIN,
                start + n + up <= i32::MAX,
                n + up <= i32::MAX,
                r@.len() == k,
                forall|j: int|
                    0 <= j < k ==> #[trigger] r@[j] == (
                        spec_offset_index(self.start_idx, a, j - lo),
                        if lo <= j < lo + n {
                            VertexEdge::spec_from_bits(
                                ((if self.spec_bits()[2 * (j - lo)] { 1int } else { 0int }) + (
                                if self.spec_bits()[2 * (j - lo) + 1] {
                                    2int
                                } else {
                                    0int
                                })) as u8,
                            )
                        } else {
                            VertexEdge::Empty
                        },
                    ),
            decreases total - k,
        {
            let offs: i32 = (k as i64 - lo as i64) as i32;
            let idx = offset_index(self.start_idx, a, offs);
            let edge = if lo as usize <= k && k < lo as usize + n {
                VertexEdge::from(bv_load_pair(&self.array, 2 * (k - lo as usize)))
            } else {
                VertexEdge::Empty
            };
            r.push((idx, edge));
            k = k + 1;
        }
        r
    }

    /// Return the `EdgeRange` with the given `padding`.
    pub fn with_padding(self, padding: EndpointPair<A, i32>) -> (r: Self)
        ensures
            r.padding == padding,
            r.start_idx == self.start_idx,
            r.t_end == self.t_end,
            r.array == self.array,
    {
        EdgeRange { padding, ..self }
    }

    /// Create a new `EdgeRange` with the vertex at the given `end` extreme set.
    pub fn extreme(t_index: i32, range: Range<i32>, end: Endpoint<A>, t_end: Endpoint<A::T>) -> (r: Self)
        requires
            t_index >= 0,
            range.start >= 0,
            range.start < range.end,
            2 * spec_range_len(range) <= spec_max_bits(),
        ensures
            r.start_idx == AxisVec::<i32>::spec_new_mapped(A::spec_dyn(), range.start, t_index),
            r.t_end == t_end,
            r.padding.lower == 0 && r.padding.upper == 0,
            r.spec_bits() == Seq::new(2 * spec_range_len(range), |_i: int| false).update(
                if end.bound == EndpointBound::Lower {
                    0
                } else {
                    2 * spec_range_len(range) - 1
                },
                true,
            ),
    {
        let mut edges = Self::new(t_index, range, t_end);
        match end.bound {
            EndpointBound::Lower => edges.set_lower_vertex(),
            EndpointBound::Upper => edges.set_upper_vertex(),
        }
        edges
    }

    /// Create a new `EdgeRange` with both vertex extremes set.
    pub fn extremes(t_index: i32, range: Range<i32>, t_end: Endpoint<A::T>) -> (r: Self)
        requires
            t_index >= 0,
            range.start >= 0,
            range.start < range.end,
            2 * spec_range_len(range) <= spec_max_bits(),
        ensures
            r.start_idx == AxisVec::<i32>::spec_new_mapped(A::spec_dyn(), range.start, t_index),
            r.t_end == t_end,
            r.padding.lower == 0 && r.padding.upper == 0,
            r.spec_bits() == Seq::new(2 * spec_range_len(range), |_i: int| false).update(0, true).update(
                2 * spec_range_len(range) - 1,
                true,
            ),
    {
        let mut edges = Self::new(t_index, range, t_end);
        edges.set_lower_vertex();
        edges.set_upper_vertex();
        edges
    }

    /// Set the first vertex.
    pub fn set_lower_vertex(&mut self)
        requires
            old(self).spec_bits().len() > 0,
        ensures
            final(self).spec_bits() == old(self).spec_bits().update(0, true),
            final(self).start_idx == old(self).start_idx,
            final(self).padding == old(self).padding,
            final(self).t_end == old(self).t_end,
    {
        bv_set(&mut self.array, 0, true);
    }

    /// Set the last vertex.
    pub fn set_upper_vertex(&mut self)
        requires
            old(self).spec_bits().len() > 0,
        ensures
            final(self).spec_bits() == old(self).spec_bits().update(
                old(self).spec_bits().len() - 1,
                true,
            ),
            final(self).start_idx == old(self).start_idx,
            final(self).padding == old(self).padding,
            final(self).t_end == old(self).t_end,
    {
        let index = bv_len(&self.array) - 1;
        bv_set(&mut self.array, index, true);
    }
}

/// Whether the first pair of bits is `1, 0`.
fn bv_get_pair_first(v: &BitSeq) -> (r: bool)
    requires
        bitseq_bits(*v).len() >= 2,
    ensures
        r == (bitseq_bits(*v)[0] && !bitseq_bits(*v)[1]),
{
    crate::bitseq::bv_get(v, 0) && !crate::bitseq::bv_get(v, 1)
}

/// Whether the last pair of bits is `0, 1`.
fn bv_get_pair_last(v: &BitSeq, len: usize) -> (r: bool)
    requires
        len == bitseq_bits(*v).len(),
        len >= 2,
    ensures
        r == (!bitseq_bits(*v)[len - 2] && bitseq_bits(*v)[len - 1]),
{
    !crate::bitseq::bv_get(v, len - 2) && crate::bitseq::bv_get(v, len - 1)
}

impl<A: Axis, M: TileMapView<A>> TileMapInspect<A, M> for EdgeRange<A> where M::El: VertexTile {
    /// Two bits per in-bound tile of the slice, from its vertices on the inspected edge (the
    /// slice endpoint), from the start index and with the padding and endpoint of the slice
    /// index. Where every tile has four vertex bits, bits `2 * k` and `2 * k + 1` are the
    /// vertices of tile `k` at the lower and upper bound of the transpose axis on that edge, set
    /// where the tile is kept.
    open spec fn spec_inspects(&self, map: &M, index: &SliceIndex<A>) -> bool {
        let s = if index.range.start > 0 { index.range.start as int } else { 0 };
        let e = if index.range.end < index.range_lmt {
            index.range.end as int
        } else {
            index.range_lmt as int
        };
        let a = A::spec_dyn();
        let t = index.t_index as int;
        &&& self.start_idx == AxisVec::<i32>::spec_new_mapped(
            a,
            if index.range.start > 0 { index.range.start } else { 0 },
            index.t_index as i32,
        )
        &&& self.t_end == index.end
        &&& self.padding.lower == (if index.range.start < 0 { -index.range.start } else { 0 })
        &&& self.padding.upper == (if index.range_lmt - index.range.end < 0 {
            index.range.end - index.range_lmt
        } else {
            0
        })
        &&& self.spec_bits().len() == 2 * (e - s)
        &&& forall|j: int|
            0 <= j < 2 * (e - s) ==> #[trigger] self.spec_bits()[j] == spec_edge_bit(
                map,
                a,
                t,
                s,
                index.end.bound,
                (e - s) as nat,
                j,
            )
        &&& spec_tiles_valid(map, a, t, s, (e - s) as nat) ==> forall|j: int|
            0 <= j < 2 * (e - s) ==> #[trigger] self.spec_bits()[j] == (spec_edge_contrib(
                map,
                a,
                t,
                s,
                index.end.bound,
                j / 2,
            ).0 && VertexMask(spec_tile_on(map, a, t, s + j / 2).spec_mask().0).spec_vertex_set(
                a.spec_t(),
                index.end.bound,
                if j % 2 == 0 {
                    EndpointBound::Lower
                } else {
                    EndpointBound::Upper
                },
            ))
    }

    /// Inspect the vertices of the in-bound tiles of the slice on the inverse of the slice
    /// endpoint.
    fn inspect(map: &M, index: &SliceIndex<A>) -> (r: Self)
    {
        let sign = index.end;
        let mut edges = EdgeRange::from_index(index);
        let ghost e0 = edges;
        let range = index.range_cropped();
        proof {
            map.lemma_view_end_lmt();
        }
        let view = map.view(index.t_index, range);
        let n = view.len();
        let ghost s = range.start as int;
        let mut k: usize = 0;
        while k < n
            invariant
                edges.start_idx == e0.start_idx,
                edges.padding == e0.padding,
                edges.t_end == e0.t_end,
                sign == index.end,
                k <= n,
                n == view@.len(),
                edges.spec_bits().len() == 2 * n,
                2 * n <= spec_max_bits(),
                forall|j: int|
                    0 <= j < 2 * n ==> #[trigger] edges.spec_bits()[j] == spec_edge_bit(
                        map,
                        A::spec_dyn(),
                        index.t_index as int,
                        s,
                        sign.bound,
                        k as nat,
                        j,
                    ),
                forall|i: int|
                    0 <= i < n ==> #[trigger] view@[i] == spec_tile_on(
                        map,
                        A::spec_dyn(),
                        index.t_index as int,
                        s + i,
                    ),
            decreases n - k,
        {
            let mask = view[k].mask();
            let is_oneway = mask.0.count_ones() == 2;
            let compact = mask.compact::<A::T>(sign);
            proof {
                A::lemma_transpose();
            }
            let ghost old_bits = edges.spec_bits();
            if !is_oneway || compact.count_ones() == 2 {
                edges.insert_mask(2 * k, compact);
            }
            k = k + 1;
        }
        proof {
            if spec_tiles_valid(map, A::spec_dyn(), index.t_index as int, s, n as nat) {
                lemma_inspected_edge_bits(map, A::spec_dyn(), index.t_index as int, s, index.end.bound, n as nat);
            }
        }
        edges
    }
}

/// An edge range has an inner collision exactly when a vertex is set that cannot be the tip of a
/// terminating triangle: a vertex other than the first (the lower vertex of the first tile) and
/// the last (the upper vertex of the last tile), or, for a single tile, both of its vertices. A
/// single tile with one set vertex is a triangle tip, never an inner collision.
pub proof fn lemma_inner_collision_vertices<A: Axis>(er: EdgeRange<A>)
    requires
        er.spec_bits().len() >= 2,
    ensures
        ({
            let b = er.spec_bits();
            let n = b.len();
            er.spec_inner_collision() <==> (exists|k: int| 0 < k < n - 1 && b[k]) || (n == 2 && b[0]
                && b[1])
        }),
        er.spec_bits().len() == 2 && !(er.spec_bits()[0] && er.spec_bits()[1])
            ==> !er.spec_inner_collision(),
{
}

/// The triangle vertices of an edge range without inner collision lie on the edge at the inverse
/// of its transpose endpoint: the lower vertex where the first tile has only its lower vertex
/// set, the upper vertex where the last tile has only its upper vertex set, and no vertex of the
/// other edge. Every set vertex of the range is one of these tips.
pub proof fn lemma_trimask_vertices<A: Axis>(er: EdgeRange<A>)
    requires
        er.spec_bits().len() >= 2,
        !er.spec_inner_collision(),
    ensures
        ({
            let b = er.spec_bits();
            let n = b.len();
            let m = VertexMask(er.spec_trimask());
            let t = A::spec_dyn().spec_t();
            let e = er.t_end.bound.spec_invert();
            &&& m.0 < 16
            &&& m.spec_vertex_set(t, e, EndpointBound::Lower) == (b[0] && !b[1])
            &&& m.spec_vertex_set(t, e, EndpointBound::Upper) == (b[n - 1] && !b[n - 2])
            &&& !m.spec_vertex_set(t, er.t_end.bound, EndpointBound::Lower)
            &&& !m.spec_vertex_set(t, er.t_end.bound, EndpointBound::Upper)
            &&& forall|k: int|
                0 <= k < n && #[trigger] b[k] ==> (k == 0 && m.spec_vertex_set(
                    t,
                    e,
                    EndpointBound::Lower,
                )) || (k == n - 1 && m.spec_vertex_set(t, e, EndpointBound::Upper))
        }),
{
    let b = er.spec_bits();
    let n = b.len();
    let t = A::spec_dyn().spec_t();
    let e = er.t_end.bound.spec_invert();
    lemma_trimask_bits(t, e, er.spec_trimask());
    assert forall|k: int| 0 <= k < n && #[trigger] b[k] implies (k == 0 && VertexMask(
        er.spec_trimask(),
    ).spec_vertex_set(t, e, EndpointBound::Lower)) || (k == n - 1 && VertexMask(
        er.spec_trimask(),
    ).spec_vertex_set(t, e, EndpointBound::Upper)) by {
        if n == 2 {
        } else {
            assert(!(0 < k < n - 1 && b[k]));
            if k == 0 {
                assert(!(0 < 1 < n - 1 && b[1]));
            } else {
                assert(!(0 < n - 2 < n - 1 && b[n - 2]));
            }
        }
    }
}

/// The vertices of the masks that a trimask can be, on the edge at bound `e` of axis `t`.
proof fn lemma_trimask_bits(t: DynAxis, e: EndpointBound, x: u8)
    requires
        x == VertexMask::spec_edge_bits(t, e) || x == VertexMask::spec_axis_vertex_bit(
            t,
            e,
            EndpointBound::Lower,
        ) || x == VertexMask::spec_axis_vertex_bit(t, e, EndpointBound::Upper) || x == 0,
    ensures
        x < 16,
        VertexMask(x).spec_vertex_set(t, e, EndpointBound::Lower) == (x == VertexMask::spec_edge_bits(
            t,
            e,
        ) || x == VertexMask::spec_axis_vertex_bit(t, e, EndpointBound::Lower)),
        VertexMask(x).spec_vertex_set(t, e, EndpointBound::Upper) == (x == VertexMask::spec_edge_bits(
            t,
            e,
        ) || x == VertexMask::spec_axis_vertex_bit(t, e, EndpointBound::Upper)),
        !VertexMask(x).spec_vertex_set(t, e.spec_invert(), EndpointBound::Lower),
        !VertexMask(x).spec_vertex_set(t, e.spec_invert(), EndpointBound::Upper),
{
    lemma_single_bits(x);
}

/// The single-vertex and edge masks by their bits.
proof fn lemma_single_bits(x: u8)
    by (bit_vector)
    ensures
        x == 0u8 ==> x & 1u8 == 0u8 && x & 2u8 == 0u8 && x & 4u8 == 0u8 && x & 8u8 == 0u8,
        x == 1u8 ==> x & 1u8 != 0u8 && x & 2u8 == 0u8 && x & 4u8 == 0u8 && x & 8u8 == 0u8,
        x == 2u8 ==> x & 1u8 == 0u8 && x & 2u8 != 0u8 && x & 4u8 == 0u8 && x & 8u8 == 0u8,
        x == 4u8 ==> x & 1u8 == 0u8 && x & 2u8 == 0u8 && x & 4u8 != 0u8 && x & 8u8 == 0u8,
        x == 8u8 ==> x & 1u8 == 0u8 && x & 2u8 == 0u8 && x & 4u8 == 0u8 && x & 8u8 != 0u8,
        x == 3u8 ==> x & 1u8 != 0u8 && x & 2u8 != 0u8 && x & 4u8 == 0u8 && x & 8u8 == 0u8,
        x == 12u8 ==> x & 1u8 == 0u8 && x & 2u8 == 0u8 && x & 4u8 != 0u8 && x & 8u8 != 0u8,
        x == 5u8 ==> x & 1u8 != 0u8 && x & 2u8 == 0u8 && x & 4u8 != 0u8 && x & 8u8 == 0u8,
        x == 10u8 ==> x & 1u8 == 0u8 && x & 2u8 != 0u8 && x & 4u8 == 0u8 && x & 8u8 != 0u8,
{
}

/// Inspecting a slice filters one-way tiles from the side: a tile of two vertex bits gives its
/// vertices on the inspected edge only where both of them lie on that edge, and gives no vertex
/// otherwise; every other tile of four vertex bits gives exactly its vertices on that edge (bit
/// `2 * k` the lower and bit `2 * k + 1` the upper vertex of tile `k`).
pub proof fn lemma_inspect_oneway<A: Axis, M: TileMapView<A>>(
    map: &M,
    index: &SliceIndex<A>,
    r: EdgeRange<A>,
    k: int,
) where M::El: VertexTile
    requires
        r.spec_inspects(map, index),
        ({
            let s = if index.range.start > 0 { index.range.start as int } else { 0 };
            let e = if index.range.end < index.range_lmt {
                index.range.end as int
            } else {
                index.range_lmt as int
            };
            &&& 0 <= k < e - s
            &&& spec_tiles_valid(map, A::spec_dyn(), index.t_index as int, s, (e - s) as nat)
        }),
    ensures
        ({
            let s = if index.range.start > 0 { index.range.start as int } else { 0 };
            let m = VertexMask(
                spec_tile_on(map, A::spec_dyn(), index.t_index as int, s + k).spec_mask().0,
            );
            let t = A::spec_dyn().spec_t();
            let lo = m.spec_vertex_set(t, index.end.bound, EndpointBound::Lower);
            let up = m.spec_vertex_set(t, index.end.bound, EndpointBound::Upper);
            let oneway_aside = spec_count_ones(m.0) == 2 && !(lo && up);
            &&& r.spec_bits()[2 * k] == (!oneway_aside && lo)
            &&& r.spec_bits()[2 * k + 1] == (!oneway_aside && up)
        }),
{
    let s = if index.range.start > 0 { index.range.start as int } else { 0 };
    let m = VertexMask(spec_tile_on(map, A::spec_dyn(), index.t_index as int, s + k).spec_mask().0);
    let t = A::spec_dyn().spec_t();
    assert(m.0 < 16);
    lemma_compact_edge(m, t, index.end.bound);
    lemma_two_bit_count(VertexMask::spec_compact(m.0, t, index.end.bound));
    assert((2 * k) / 2 == k && (2 * k) % 2 == 0);
    assert((2 * k + 1) / 2 == k && (2 * k + 1) % 2 == 1);
    assert(r.spec_bits()[2 * k] == r.spec_bits()[2 * k]);
    assert(r.spec_bits()[2 * k + 1] == r.spec_bits()[2 * k + 1]);
}

/// A two-bit value has two set bits exactly when both of its bits are set.
proof fn lemma_two_bit_count(c: u8)
    requires
        c < 4,
    ensures
        (spec_count_ones(c) == 2) == (c & 1u8 != 0 && c & 2u8 != 0),
{
    lemma_two_bit_values(c);
    reveal_with_fuel(spec_count_ones, 3);
}

/// The bits of each two-bit value.
proof fn lemma_two_bit_values(c: u8)
    by (bit_vector)
    requires
        c < 4,
    ensures
        (c & 1u8 != 0 && c & 2u8 != 0) == (c == 3u8),
{
}

} // verus!
