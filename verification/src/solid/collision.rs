use core::marker::PhantomData;
use core::ops::{ControlFlow, Range};

use vstd::prelude::*;
use vstd::std_specs::convert::{FromSpecImpl, IntoSpec};

use crate::bitseq::{bitseq_bits, bv_any_in, bv_get, bv_len, bv_push, bv_repeat, bv_with_capacity, spec_max_bits, BitSeq};
use crate::plane::axis::{Axis, AxisValue, DynAxis};
use crate::plane::axis_vec::AxisVec;
use crate::plane::endpoint_pair::EndpointPair;
use crate::schema::brk::Break;
use crate::solid::tile::SolidTile;
use crate::view::index::{range_len, spec_range_len, SliceIndex};
use crate::view::inspect::{spec_inspectable, TileMapInspect};
use crate::view::tilemap::{spec_tile_on, TileMap, TileMapView};

verus! {

/// # Collision
///
/// The context of a [`Break::Collision`].
#[derive(Debug, Clone, PartialEq, Eq)]
pub enum Collision<A> {
    /// Collided on a tile bound.
    TileBound(TileRange<A>),
    /// Collided on a map bound.
    MapBound,
}

impl<A> From<Collision<A>> for ControlFlow<Break<Collision<A>>> {
    fn from(c: Collision<A>) -> (r: Self) {
        ControlFlow::Break(Break::Collision(c))
    }
}

impl<A> FromSpecImpl<Collision<A>> for ControlFlow<Break<Collision<A>>> {
    open spec fn obeys_from_spec() -> bool {
        true
    }

    open spec fn from_spec(c: Collision<A>) -> Self {
        ControlFlow::Break(Break::Collision(c))
    }
}

/// The indices of the set bits among the first `n` bits, in order.
pub open spec fn spec_ones(bits: Seq<bool>, n: nat) -> Seq<int>
    decreases n,
{
    if n == 0 {
        Seq::empty()
    } else {
        let prev = spec_ones(bits, (n - 1) as nat);
        if bits[n - 1] {
            prev.push(n - 1)
        } else {
            prev
        }
    }
}

/// The tile index `offs` elements after `start` on axis `a`.
pub open spec fn spec_offset_index(start: AxisVec<i32>, a: DynAxis, offs: int) -> AxisVec<i32> {
    start.spec_set(a, (start.spec_get(a) + offs) as i32)
}

/// Return the tile index `offs` elements after `start` on axis `a`.
pub fn offset_index(start: AxisVec<i32>, a: DynAxis, offs: i32) -> (r: AxisVec<i32>)
    requires
        i32::MIN <= start.spec_get(a) + offs <= i32::MAX,
    ensures
        r == spec_offset_index(start, a, offs as int),
{
    match a {
        DynAxis::X => AxisVec::new(start.x + offs, start.y),
        DynAxis::Y => AxisVec::new(start.x, start.y + offs),
    }
}

/// # TileRange
///
/// The (at least partially) in-bound tiles of a tilemap slice: one bit per in-bound tile, set
/// for a solid tile, with the number of out-of-bound tiles on each endpoint.
#[derive(Debug, PartialEq, Eq)]
pub struct TileRange<A> {
    /// The tile range axis.
    pub axis: PhantomData<A>,
    /// The index of the first tile.
    pub start_idx: AxisVec<i32>,
    /// The number of out of bound tiles on each endpoint of axis `A`.
    pub padding: EndpointPair<A, i32>,
    /// One bit per in-bound tile, set for a solid tile.
    pub array: BitSeq,
}

impl<A> Clone for TileRange<A> {
    fn clone(&self) -> (r: Self)
        ensures
            r.start_idx == self.start_idx,
            r.padding == self.padding,
            bitseq_bits(r.array) == bitseq_bits(self.array),
    {
        TileRange {
            axis: PhantomData,
            start_idx: self.start_idx,
            padding: self.padding,
            array: self.array.clone(),
        }
    }
}

impl<A: AxisValue> TileRange<A> {
    /// Create a new `TileRange` of no solid tile from a transpose index and a range.
    pub fn new(t_index: i32, range: Range<i32>) -> (r: Self)
        requires
            spec_range_len(range) <= spec_max_bits(),
        ensures
            r.start_idx == AxisVec::<i32>::spec_new_mapped(A::spec_dyn(), range.start, t_index),
            r.padding.lower == 0 && r.padding.upper == 0,
            bitseq_bits(r.array) == Seq::new(spec_range_len(range), |_i: int| false),
    {
        let n = range_len(&range);
        TileRange {
            axis: PhantomData,
            start_idx: AxisVec::new_mapped::<A>(range.start, t_index),
            padding: EndpointPair::new(0, 0),
            array: bv_repeat(false, n),
        }
    }

    /// Create a new `TileRange` from a starting index and a bit array.
    pub fn from_array<I: Into<AxisVec<i32>>>(index: I, array: BitSeq) -> (r: Self)
        ensures
            I::obeys_into_spec() ==> r.start_idx == index.into_spec(),
            r.padding.lower == 0 && r.padding.upper == 0,
            r.array == array,
    {
        TileRange { axis: PhantomData, start_idx: index.into(), array, padding: EndpointPair::new(0, 0) }
    }

    /// Returns `true` if any tile is solid.
    pub fn collided(&self) -> (r: bool)
        ensures
            r == (exists|k: int| 0 <= k < bitseq_bits(self.array).len() && bitseq_bits(self.array)[k]),
    {
        let n = bv_len(&self.array);
        bv_any_in(&self.array, 0, n)
    }

    /// Return the `(index, solid)` pairs of the in-bound tiles.
    pub fn iter_in_bounds(&self) -> (r: Vec<(AxisVec<i32>, bool)>)
        requires
            bitseq_bits(self.array).len() <= i32::MAX,
            self.start_idx.spec_get(A::spec_dyn()) + bitseq_bits(self.array).len() <= i32::MAX,
        ensures
            r@.len() == bitseq_bits(self.array).len(),
            forall|k: int|
                0 <= k < r@.len() ==> #[trigger] r@[k] == (
                    spec_offset_index(self.start_idx, A::spec_dyn(), k),
                    bitseq_bits(self.array)[k],
                ),
    {
        let n = bv_len(&self.array);
        let a = A::into_dyn();
        let start = self.start_idx.get::<A>();
        let mut r: Vec<(AxisVec<i32>, bool)> = Vec::new();
        let mut k: usize = 0;
        while k < n
            invariant
                k <= n,
                n == bitseq_bits(self.array).len(),
                a == A::spec_dyn(),
                start == self.start_idx.spec_get(a),
                start + n <= i32::MAX,
                n <= i32::MAX,
                r@.len() == k,
                forall|j: int|
                    0 <= j < k ==> #[trigger] r@[j] == (
                        spec_offset_index(self.start_idx, a, j),
                        bitseq_bits(self.array)[j],
                    ),
            decreases n - k,
        {
            let idx = offset_index(self.start_idx, a, k as i32);
            r.push((idx, bv_get(&self.array, k)));
            k = k + 1;
        }
        r
    }

    /// Return the `(index, solid)` pairs of all tiles, out-of-bound ones (never solid) included.
    pub fn iter_all(&self) -> (r: Vec<(AxisVec<i32>, bool)>)
        requires
            bitseq_bits(self.array).len() + (if self.padding.upper > 0 {
                self.padding.upper as int
            } else {
                0
            }) <= i32::MAX,
            (if self.padding.lower > 0 { self.padding.lower as int } else { 0 })
                + bitseq_bits(self.array).len() + (if self.padding.upper > 0 {
                self.padding.upper as int
            } else {
                0
            }) <= usize::MAX,
            self.start_idx.spec_get(A::spec_dyn()) - self.padding.lower >= i32::MIN,
            self.start_idx.spec_get(A::spec_dyn()) + bitseq_bits(self.array).len() + (if self.padding.upper
                > 0 {
                self.padding.upper as int
            } else {
                0
            }) <= i32::MAX,
        ensures
            ({
                let lo = if self.padding.lower > 0 { self.padding.lower as int } else { 0 };
                let up = if self.padding.upper > 0 { self.padding.upper as int } else { 0 };
                let n = bitseq_bits(self.array).len() as int;
                &&& r@.len() == lo + n + up
                &&& forall|k: int|
                    0 <= k < r@.len() ==> #[trigger] r@[k] == (
                        spec_offset_index(self.start_idx, A::spec_dyn(), k - lo),
                        lo <= k < lo + n && bitseq_bits(self.array)[k - lo],
                    )
            }),
    {
        let n = bv_len(&self.array);
        let a = A::into_dyn();
        let start = self.start_idx.get::<A>();
        let lo: i32 = if self.padding.lower > 0 { self.padding.lower } else { 0 };
        let up: i32 = if self.padding.upper > 0 { self.padding.upper } else { 0 };
        let total: usize = lo as usize + n + up as usize;
        let mut r: Vec<(AxisVec<i32>, bool)> = Vec::new();
        let mut k: usize = 0;
        while k < total
            invariant
                k <= total,
                total == lo + n + up,
                0 <= lo,
                0 <= up,
                n == bitseq_bits(self.array).len(),
                a == A::spec_dyn(),
                start == self.start_idx.spec_get(a),
                start - lo >= i32::MIN,
                start + n + up <= i32::MAX,
                n + up <= i32::MAX,
                r@.len() == k,
                forall|j: int|
                    0 <= j < k ==> #[trigger] r@[j] == (
                        spec_offset_index(self.start_idx, a, j - lo),
                        lo <= j < lo + n && bitseq_bits(self.array)[j - lo],
                    ),
            decreases total - k,
        {
            let offs: i32 = (k as i64 - lo as i64) as i32;
            let idx = offset_index(self.start_idx, a, offs);
            let solid = if lo as usize <= k && k < lo as usize + n {
                bv_get(&self.array, k - lo as usize)
            } else {
                false
            };
            r.push((idx, solid));
            k = k + 1;
        }
        r
    }

    /// Return the indices of the solid tiles.
    pub fn iter_solid(&self) -> (r: Vec<AxisVec<i32>>)
        requires
            bitseq_bits(self.array).len() <= i32::MAX,
            self.start_idx.spec_get(A::spec_dyn()) + bitseq_bits(self.array).len() <= i32::MAX,
        ensures
            ({
                let ones = spec_ones(bitseq_bits(self.array), bitseq_bits(self.array).len());
                &&& r@.len() == ones.len()
                &&& forall|j: int|
                    0 <= j < r@.len() ==> #[trigger] r@[j] == spec_offset_index(
                        self.start_idx,
                        A::spec_dyn(),
                        ones[j],
                    )
            }),
    {
        let n = bv_len(&self.array);
        let a = A::into_dyn();
        let start = self.start_idx.get::<A>();
        let ghost bits = bitseq_bits(self.array);
        let mut r: Vec<AxisVec<i32>> = Vec::new();
        let mut k: usize = 0;
        while k < n
            invariant
                k <= n,
                n == bits.len(),
                bits == bitseq_bits(self.array),
                a == A::spec_dyn(),
                start == self.start_idx.spec_get(a),
                start + n <= i32::MAX,
                n <= i32::MAX,
                r@.len() == spec_ones(bits, k as nat).len(),
                forall|j: int|
                    0 <= j < r@.len() ==> #[trigger] r@[j] == spec_offset_index(
                        self.start_idx,
                        a,
                        spec_ones(bits, k as nat)[j],
                    ),
            decreases n - k,
        {
            if bv_get(&self.array, k) {
                let idx = offset_index(self.start_idx, a, k as i32);
                r.push(idx);
            }
            k = k + 1;
        }
        r
    }
}

impl<A: Axis> TileRange<A> {
    /// Create an empty `TileRange` at the in-bound start of a [`SliceIndex`].
    pub fn from_index(index: &SliceIndex<A>) -> (r: Self)
        requires
            index.range.start > i32::MIN,
            i32::MIN < index.range_lmt - index.range.end <= i32::MAX,
        ensures
            r.start_idx == AxisVec::<i32>::spec_new_mapped(
                A::spec_dyn(),
                if index.range.start > 0 { index.range.start } else { 0 },
                index.t_index as i32,
            ),
            r.padding.lower == (if index.range.start < 0 { -index.range.start } else { 0 }),
            r.padding.upper == (if index.range_lmt - index.range.end < 0 {
                index.range.end - index.range_lmt
            } else {
                0
            }),
            bitseq_bits(r.array) == Seq::<bool>::empty(),
    {
        let len = index.len_cropped();
        TileRange {
            axis: PhantomData,
            start_idx: AxisVec::new_mapped::<A>(index.inbound_range_start(), index.t_index as i32),
            array: bv_with_capacity(0),
            padding: index.padding(),
        }
    }
}

impl<A: Axis, M: TileMapView<A>> TileMapInspect<A, M> for TileRange<A> where M::El: SolidTile {
    /// One bit per in-bound tile of the slice, set where it is solid, from the start index and
    /// with the padding of the slice index.
    open spec fn spec_inspects(&self, map: &M, index: &SliceIndex<A>) -> bool {
        let s = if index.range.start > 0 { index.range.start as int } else { 0 };
        let e = if index.range.end < index.range_lmt {
            index.range.end as int
        } else {
            index.range_lmt as int
        };
        &&& self.start_idx == AxisVec::<i32>::spec_new_mapped(
            A::spec_dyn(),
            if index.range.start > 0 { index.range.start } else { 0 },
            index.t_index as i32,
        )
        &&& self.padding.lower == (if index.range.start < 0 { -index.range.start } else { 0 })
        &&& self.padding.upper == (if index.range_lmt - index.range.end < 0 {
            index.range.end - index.range_lmt
        } else {
            0
        })
        &&& bitseq_bits(self.array).len() == e - s
        &&& forall|k: int|
            0 <= k < e - s ==> #[trigger] bitseq_bits(self.array)[k] == spec_tile_on(
                map,
                A::spec_dyn(),
                index.t_index as int,
                s + k,
            ).spec_is_solid()
    }

    /// Inspect the in-bound tiles of the slice, one bit per tile, set where it is solid.
    fn inspect(map: &M, index: &SliceIndex<A>) -> (r: Self)
    {
        let mut tiles = TileRange::from_index(index);
        let ghost t0 = tiles;
        let range = index.range_cropped();
        proof {
            map.lemma_view_end_lmt();
        }
        let view = map.view(index.t_index, range);
        let n = view.len();
        let mut k: usize = 0;
        while k < n
            invariant
                tiles.start_idx == t0.start_idx,
                tiles.padding == t0.padding,
                k <= n,
                n == view@.len(),
                n <= spec_max_bits(),
                bitseq_bits(tiles.array).len() == k,
                forall|j: int| 0 <= j < k ==> #[trigger] bitseq_bits(tiles.array)[j] == view@[j].spec_is_solid(),
            decreases n - k,
        {
            bv_push(&mut tiles.array, view[k].is_solid());
            k = k + 1;
        }
        tiles
    }
}

} // verus!
