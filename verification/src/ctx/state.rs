use core::ops::Range;

use vstd::prelude::*;

use crate::bitseq::spec_max_bits;
use crate::ctx::scene::Scene;
use crate::plane::axis::{Axis, AxisValue, DynAxis};
use crate::plane::axis_mask::AxisMask;
use crate::plane::endpoint::{Endpoint, EndpointBound};
use crate::plane::endpoint_pair::EndpointPair;
use crate::view::index::SliceIndex;
use crate::view::inspect::{spec_slice_of, TileMapInspect};
use crate::view::tilemap::{TileMap, TileMapView};

verus! {

/// # DetachOp
///
/// Detach operation for [`detach_stale`]: the next operation chosen by its state filter.
#[derive(Debug, Clone, Copy, PartialEq, Eq, Structural)]
pub enum DetachOp {
    /// Do not detach.
    Break,
    /// Detach immediately.
    Detach,
    /// Check for a collision on the next non-intersecting tiles of the attached endpoint, calling
    /// the inspection filter with the inspected tiles.
    CheckNextTiles,
}

/// The attachment mask after attaching bound `b` of axis `a`: the bits of the transpose axis are
/// kept and those of axis `a` replaced by that of the endpoint.
pub open spec fn spec_attach(m: u8, a: DynAxis, b: EndpointBound) -> u8 {
    (m & AxisMask::spec_axis_bits(a.spec_t())) | AxisMask::spec_end_bit(a, b)
}

/// The attachment mask after detaching both endpoints of axis `a`.
pub open spec fn spec_detach(m: u8, a: DynAxis) -> u8 {
    m & AxisMask::spec_axis_bits(a.spec_t())
}

/// The index of the tile next to `index` beyond bound `b`.
pub open spec fn spec_next_index(b: EndpointBound, index: int) -> int {
    match b {
        EndpointBound::Lower => index - 1,
        EndpointBound::Upper => index + 1,
    }
}

/// Attach the given endpoint of axis `A`, detaching its inverse.
pub fn attach<A: Axis>(attmask: &mut AxisMask, end: Endpoint<A>)
    ensures
        final(attmask).0 == spec_attach(old(attmask).0, A::spec_dyn(), end.bound),
{
    proof {
        A::lemma_transpose();
    }
    attmask.0 = attmask.isolate_axis::<A::T>().0 | AxisMask::from_end::<A>(end).0;
}

/// Detach both endpoints of axis `A`.
pub fn detach<A: AxisValue>(attmask: &mut AxisMask)
    ensures
        final(attmask).0 == spec_detach(old(attmask).0, A::spec_dyn()),
{
    attmask.clear_axis::<A>();
}

/// The map and slice arguments of [`detach_stale`], attached at bound `b` of the transpose
/// axis, keep the next tile index in `i32`, the map bound index of `b` defined, and every slice
/// index that it may build inspectable (a transpose range that meets the map is ordered).
pub open spec fn spec_detach_stale_ok<A: Axis, M: TileMap>(
    map: &M,
    indices: EndpointPair<A::T, i32>,
    t_range: Range<i32>,
    b: EndpointBound,
) -> bool {
    let lmt = map.spec_axis_len(A::spec_dyn().spec_t());
    &&& map.spec_wf()
    &&& b == EndpointBound::Upper ==> lmt > 0
    &&& lmt <= i32::MAX
    &&& 2 * lmt <= spec_max_bits()
    &&& i32::MIN <= spec_next_index(b, indices.spec_get(b) as int) <= i32::MAX
    &&& crate::plane::endpoint_range::spec_intersects(t_range, 0..(lmt as i32)) ==> i32::MIN
        < t_range.start <= t_range.end
}

/// The slice of axis `A` at tile index `next` over `t_range` has an element in the map.
pub open spec fn spec_slice_in_bounds<A: Axis, M: TileMap>(map: &M, next: int, t_range: Range<i32>) -> bool {
    &&& 0 <= next < map.spec_axis_len(A::spec_dyn())
    &&& crate::plane::endpoint_range::spec_intersects(
        t_range,
        0..(map.spec_axis_len(A::spec_dyn().spec_t()) as i32),
    )
}

/// Index `x` is strictly beyond index `y` toward bound `b`.
pub open spec fn spec_beyond(b: EndpointBound, x: int, y: int) -> bool {
    match b {
        EndpointBound::Lower => x < y,
        EndpointBound::Upper => x > y,
    }
}

/// The map bound index of bound `b` of axis `a`.
pub open spec fn spec_bound_index<M: TileMap>(map: &M, a: DynAxis, b: EndpointBound) -> int {
    match b {
        EndpointBound::Lower => 0,
        EndpointBound::Upper => map.spec_axis_len(a) - 1,
    }
}

/// Detach the transpose axis `A::T` if *stale*: if attached on an endpoint `end` of it, the
/// state filter decides on the next operation from `end`. On [`DetachOp::CheckNextTiles`], the
/// slice of axis `A` next to the tile index of `end` (`indices` holds the tile index of each
/// endpoint) over the transpose range `t_range` is inspected, and the inspection filter decides
/// whether to detach; the inspection is returned. Where that slice is out of bounds, the axis is
/// detached unless the next index is beyond the map bound index of `end` (attached to a map
/// bound from the inside).
pub fn detach_stale<A, Sc, M, Ins, F0, F1>(
    attmask: &mut AxisMask,
    indices: EndpointPair<A::T, i32>,
    t_range: Range<i32>,
    scene: &Scene<Sc, M>,
    state_filter: F0,
    insp_filter: F1,
) -> (r: Option<Ins>) where
    A: Axis,
    M: TileMapView<A>,
    Ins: TileMapInspect<A, M>,
    F0: FnOnce(Endpoint<A::T>) -> DetachOp,
    F1: FnOnce(Endpoint<A::T>, &Ins) -> bool,

    requires
        forall|b: EndpointBound|
            old(attmask).spec_first_end(<A::T as AxisValue>::spec_dyn()) == Some(b) && #[trigger] call_ensures(
                state_filter,
                (Endpoint::<A::T>::spec_of(b),),
                DetachOp::CheckNextTiles,
            ) ==> spec_detach_stale_ok::<A, M>(&scene.map, indices, t_range, b),
        forall|e: Endpoint<A::T>| call_requires(state_filter, (e,)),
        forall|e: Endpoint<A::T>, i: &Ins| call_requires(insp_filter, (e, i)),
    ensures
        old(attmask).spec_first_end(<A::T as AxisValue>::spec_dyn()) is None ==> r is None
            && final(attmask).0 == old(attmask).0,
        old(attmask).spec_first_end(<A::T as AxisValue>::spec_dyn()) matches Some(b) ==> exists|
            op: DetachOp,
        |
            #[trigger] call_ensures(state_filter, (Endpoint::<A::T>::spec_of(b),), op) && match op {
                DetachOp::Break => r is None && final(attmask).0 == old(attmask).0,
                DetachOp::Detach => r is None && final(attmask).0 == spec_detach(
                    old(attmask).0,
                    <A::T as AxisValue>::spec_dyn(),
                ),
                DetachOp::CheckNextTiles => {
                    let next = spec_next_index(b, indices.spec_get(b) as int);
                    if spec_slice_in_bounds::<A, M>(&scene.map, next, t_range) {
                        r is Some && r->0.spec_inspects(
                            &scene.map,
                            &spec_slice_of::<A, M>(&scene.map, next, t_range, b.spec_invert()),
                        ) && exists|det: bool|
                            #[trigger] call_ensures(
                                insp_filter,
                                (Endpoint::<A::T>::spec_of(b), &r->0),
                                det,
                            ) && final(attmask).0 == (if det {
                                spec_detach(old(attmask).0, <A::T as AxisValue>::spec_dyn())
                            } else {
                                old(attmask).0
                            })
                    } else {
                        r is None && final(attmask).0 == (if spec_beyond(
                            b,
                            next,
                            spec_bound_index(&scene.map, <A::T as AxisValue>::spec_dyn(), b),
                        ) {
                            old(attmask).0
                        } else {
                            spec_detach(old(attmask).0, <A::T as AxisValue>::spec_dyn())
                        })
                    }
                },
            },
{
    proof {
        A::lemma_transpose();
    }
    let ghost m = attmask.0;
    if let Some(end) = attmask.first_end::<A::T>() {
        let op = state_filter(end);
        assert(call_ensures(state_filter, (end,), op));
        match op {
            DetachOp::Break => {},
            DetachOp::Detach => {
                detach::<A::T>(attmask);
            },
            DetachOp::CheckNextTiles => {
                let index = end.bound.incr(indices.get(end));
                let size = scene.map.size();
                match SliceIndex::<A>::try_new(index, t_range, end.invert(), size) {
                    Ok(slice) => {
                        assert(slice == spec_slice_of::<A, M>(&scene.map, index as int, t_range, end.bound.spec_invert()));
                        let insp = Ins::inspect(&scene.map, &slice);
                        let det = insp_filter(end, &insp);
                        assert(call_ensures(insp_filter, (end, &insp), det));
                        if det {
                            detach::<A::T>(attmask);
                        }
                        return Some(insp);
                    },
                    Err(_) => {
                        let bound = scene.map.bound_index::<A::T>(end) as i32;
                        if !end.bound.gt(index, bound) {
                            detach::<A::T>(attmask);
                        }
                        return None;
                    },
                }
            },
        }
    }
    None
}

/// Attaching an endpoint sets it, clears the inverse endpoint of its axis and leaves the
/// transpose axis unchanged.
pub proof fn lemma_attach(m: AxisMask, a: DynAxis, b: EndpointBound)
    ensures
        AxisMask(spec_attach(m.0, a, b)).spec_end_set(a, b),
        !AxisMask(spec_attach(m.0, a, b)).spec_end_set(a, b.spec_invert()),
        AxisMask(spec_attach(m.0, a, b)).spec_end_set(a.spec_t(), EndpointBound::Lower)
            == m.spec_end_set(a.spec_t(), EndpointBound::Lower),
        AxisMask(spec_attach(m.0, a, b)).spec_end_set(a.spec_t(), EndpointBound::Upper)
            == m.spec_end_set(a.spec_t(), EndpointBound::Upper),
{
    let x = m.0;
    assert((((x & 12u8) | 1u8) & 1u8 != 0) && (((x & 12u8) | 1u8) & 2u8 == 0) && (((x & 12u8)
        | 1u8) & 4u8 != 0) == (x & 4u8 != 0) && (((x & 12u8) | 1u8) & 8u8 != 0) == (x & 8u8 != 0))
        by (bit_vector);
    assert((((x & 12u8) | 2u8) & 2u8 != 0) && (((x & 12u8) | 2u8) & 1u8 == 0) && (((x & 12u8)
        | 2u8) & 4u8 != 0) == (x & 4u8 != 0) && (((x & 12u8) | 2u8) & 8u8 != 0) == (x & 8u8 != 0))
        by (bit_vector);
    assert((((x & 3u8) | 4u8) & 4u8 != 0) && (((x & 3u8) | 4u8) & 8u8 == 0) && (((x & 3u8) | 4u8)
        & 1u8 != 0) == (x & 1u8 != 0) && (((x & 3u8) | 4u8) & 2u8 != 0) == (x & 2u8 != 0))
        by (bit_vector);
    assert((((x & 3u8) | 8u8) & 8u8 != 0) && (((x & 3u8) | 8u8) & 4u8 == 0) && (((x & 3u8) | 8u8)
        & 1u8 != 0) == (x & 1u8 != 0) && (((x & 3u8) | 8u8) & 2u8 != 0) == (x & 2u8 != 0))
        by (bit_vector);
}

/// Detaching an axis clears both of its endpoints and leaves the transpose axis unchanged.
pub proof fn lemma_detach(m: AxisMask, a: DynAxis)
    ensures
        !AxisMask(spec_detach(m.0, a)).spec_end_set(a, EndpointBound::Lower),
        !AxisMask(spec_detach(m.0, a)).spec_end_set(a, EndpointBound::Upper),
        AxisMask(spec_detach(m.0, a)).spec_end_set(a.spec_t(), EndpointBound::Lower)
            == m.spec_end_set(a.spec_t(), EndpointBound::Lower),
        AxisMask(spec_detach(m.0, a)).spec_end_set(a.spec_t(), EndpointBound::Upper)
            == m.spec_end_set(a.spec_t(), EndpointBound::Upper),
{
    let x = m.0;
    assert((x & 12u8) & 1u8 == 0 && (x & 12u8) & 2u8 == 0 && ((x & 12u8) & 4u8 != 0) == (x & 4u8
        != 0) && ((x & 12u8) & 8u8 != 0) == (x & 8u8 != 0)) by (bit_vector);
    assert((x & 3u8) & 4u8 == 0 && (x & 3u8) & 8u8 == 0 && ((x & 3u8) & 1u8 != 0) == (x & 1u8
        != 0) && ((x & 3u8) & 2u8 != 0) == (x & 2u8 != 0)) by (bit_vector);
}

/// The next tile index beyond a bound is beyond the index toward that bound, and the index is
/// beyond the next one toward the inverse bound.
pub proof fn lemma_next_index_beyond(b: EndpointBound, index: int)
    ensures
        spec_beyond(b, spec_next_index(b, index), index),
        spec_beyond(b.spec_invert(), index, spec_next_index(b, index)),
        spec_next_index(b.spec_invert(), spec_next_index(b, index)) == index,
{
}

} // verus!
