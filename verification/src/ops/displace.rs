use core::ops::Range;

use vstd::prelude::*;

use crate::ctx::state::spec_beyond;
use crate::plane::axis::{Axis, AxisValue};
use crate::plane::endpoint::{Endpoint, EndpointBound};
use crate::plane::endpoint_range::{spec_intersects, EndpointRange};
use crate::view::tilemap::TileMap;

verus! {

/// # SkipToMap
///
/// How out-of-bounds displacement toward, or parallel to, the map is handled.
#[derive(Debug, Clone, Copy, PartialEq, Eq, Structural)]
pub enum SkipToMap {
    /// The collider is out of bounds on the transpose axis: displace straight to the target.
    Parallel,
    /// The collider is outside the map, displacing toward it: displace to the target, at most
    /// up to the given tile index (the one before the map bound).
    Toward(i32),
    /// The collider is not out of bounds toward its displacement: nothing to skip.
    InBounds,
}

/// The map bound index of bound `b` on the coordinates of axis `a` (counted by the slices of
/// its transpose).
pub open spec fn spec_coord_bound<M: TileMap>(map: &M, t: crate::plane::axis::DynAxis, b: EndpointBound) -> int {
    match b {
        EndpointBound::Lower => 0,
        EndpointBound::Upper => map.spec_axis_len(t) - 1,
    }
}

/// How displacement on axis `A` toward `end` is handled out of bounds: `vert_idx` is the tile
/// index of the displaced vertex and `t_range` the tile range of the collider on the transpose
/// axis. Where the range misses the map, displacement is parallel to it; where the vertex is
/// beyond the map bound opposite to `end`, displacement is toward the map, limited to the tile
/// before that bound.
pub fn skip_to_map_step<A: Axis, M: TileMap>(
    end: Endpoint<A>,
    vert_idx: i32,
    t_range: Range<i32>,
    map: &M,
) -> (r: SkipToMap)
    requires
        map.spec_axis_len(<A::T as AxisValue>::spec_dyn()) <= i32::MAX,
        end.bound == EndpointBound::Lower ==> map.spec_axis_len(<A::T as AxisValue>::spec_dyn()) > 0,
    ensures
        ({
            let t = <A::T as AxisValue>::spec_dyn();
            let bnd = spec_coord_bound(map, t, end.bound.spec_invert());
            r == if !spec_intersects(t_range, 0..(map.spec_axis_len(A::spec_dyn()) as i32)) {
                SkipToMap::Parallel
            } else if spec_beyond(end.bound, bnd, vert_idx as int) {
                SkipToMap::Toward(
                    (match end.bound {
                        EndpointBound::Lower => bnd + 1,
                        EndpointBound::Upper => bnd - 1,
                    }) as i32,
                )
            } else {
                SkipToMap::InBounds
            }
        }),
{
    let bnd_idx = map.bound_index::<A::T>(Endpoint::from_bound(end.bound.invert())) as i32;
    let map_range = 0..map.axis_len::<A>() as i32;
    if !t_range.intersects(&map_range) {
        SkipToMap::Parallel
    } else if end.bound.gt(bnd_idx, vert_idx) {
        SkipToMap::Toward(end.bound.decr(bnd_idx))
    } else {
        SkipToMap::InBounds
    }
}

/// Whether displacement on axis `A` toward `end` is away from the map: the tile index
/// `vert_idx` of the displaced vertex is beyond the map bound of `end`.
pub fn skip_from_map_step<A: Axis, M: TileMap>(end: Endpoint<A>, vert_idx: i32, map: &M) -> (r: bool)
    requires
        map.spec_axis_len(<A::T as AxisValue>::spec_dyn()) <= i32::MAX,
        end.bound == EndpointBound::Upper ==> map.spec_axis_len(<A::T as AxisValue>::spec_dyn()) > 0,
    ensures
        r == spec_beyond(
            end.bound,
            vert_idx as int,
            spec_coord_bound(map, <A::T as AxisValue>::spec_dyn(), end.bound),
        ),
{
    let bnd_idx = map.bound_index::<A::T>(Endpoint::from_bound(end.bound)) as i32;
    end.bound.gt(vert_idx, bnd_idx)
}

} // verus!
