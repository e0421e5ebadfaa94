use core::marker::PhantomData;
use core::ops::Range;

use vstd::prelude::*;

use crate::bitseq::spec_max_bits;
use crate::plane::axis::{Axis, AxisValue, DynAxis};
use crate::plane::axis_vec::AxisVec;
use crate::plane::endpoint::{Endpoint, EndpointBound};
use crate::plane::endpoint_range::spec_intersects;
use crate::view::index::SliceIndex;
use crate::view::tilemap::{TileMap, TileMapView};

verus! {

/// The slice index addresses a row (or column) of the map, and its range holds at least one
/// element within the bound it records, itself within the map.
pub open spec fn spec_inspectable<A: Axis, M: TileMap>(map: &M, index: &SliceIndex<A>) -> bool {
    &&& map.spec_wf()
    &&& index.t_index < map.spec_axis_len(A::spec_dyn())
    &&& 0 <= index.range_lmt <= map.spec_axis_len(A::spec_dyn().spec_t())
    &&& spec_intersects(index.range, 0..index.range_lmt)
    &&& index.range.start <= index.range.end
    &&& index.range.start > i32::MIN
    &&& i32::MIN < index.range_lmt - index.range.end <= i32::MAX
    &&& 2 * index.range_lmt <= spec_max_bits()
}

/// A map and a slice range from which any slice index that `SliceIndex::try_new` accepts is
/// inspectable: the map bound on the transpose axis fits the slice arithmetic, and a range that
/// meets the map is ordered.
pub open spec fn spec_slice_args_ok<A: Axis, M: TileMap>(map: &M, range: Range<i32>) -> bool {
    let lmt = map.spec_axis_len(A::spec_dyn().spec_t());
    &&& map.spec_wf()
    &&& lmt <= i32::MAX
    &&& 2 * lmt <= spec_max_bits()
    &&& spec_intersects(range, 0..(lmt as i32)) ==> i32::MIN < range.start <= range.end
}

/// A slice index that `SliceIndex::try_new` accepts from arguments that
/// [`spec_slice_args_ok`] admits is inspectable.
pub proof fn lemma_accepted_index_inspectable<A: Axis, M: TileMap>(map: &M, index: &SliceIndex<A>)
    requires
        spec_slice_args_ok::<A, M>(map, index.range),
        SliceIndex::<A>::spec_in_bounds(index.t_index as i32, index.range, (AxisVec {
            x: map.spec_axis_len(DynAxis::X),
            y: map.spec_axis_len(DynAxis::Y),
        })),
        index.range_lmt == map.spec_axis_len(A::spec_dyn().spec_t()) as i32,
        index.t_index <= i32::MAX,
    ensures
        spec_inspectable(map, index),
{
}

/// The slice index of axis `A` at tile index `t_index` over the transpose range `range`, for
/// bound `b` of the transpose axis, bounded by the map's transpose axis length.
pub open spec fn spec_slice_of<A: Axis, M: TileMap>(
    map: &M,
    t_index: int,
    range: Range<i32>,
    b: EndpointBound,
) -> SliceIndex<A> {
    SliceIndex {
        _axis: PhantomData,
        t_index: t_index as usize,
        range,
        range_lmt: map.spec_axis_len(A::spec_dyn().spec_t()) as i32,
        end: Endpoint::spec_of(b),
    }
}

/// # TileMapInspect
///
/// A contextual representation of the tiles of a slice: built from a tilemap and a
/// [`SliceIndex`], it usually informs on whether the slice can be entered.
pub trait TileMapInspect<A: Axis, M: TileMapView<A>>: Sized {
    /// `self` is the representation of the slice `index` of `map`.
    spec fn spec_inspects(&self, map: &M, index: &SliceIndex<A>) -> bool;

    /// Build the representation of the slice `index` of `map`.
    fn inspect(map: &M, index: &SliceIndex<A>) -> (r: Self)
        requires
            spec_inspectable(map, index),
        ensures
            r.spec_inspects(map, index),
    ;
}

} // verus!
