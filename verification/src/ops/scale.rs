use vstd::prelude::*;

use crate::plane::axis::DynAxis;
use crate::plane::axis_vec::AxisVec;
use crate::view::tilemap::TileMap;

verus! {

/// Return the two-dimensional tile index of a contiguous (row major) array index `i`: the
/// column and the row.
pub fn array_index_to_tile_index<M: TileMap>(i: usize, map: M) -> (r: AxisVec<i32>)
    requires
        map.spec_axis_len(DynAxis::Y) > 0,
    ensures
        r.x == (i % map.spec_axis_len(DynAxis::Y)) as i32,
        r.y == (i / map.spec_axis_len(DynAxis::Y)) as i32,
{
    let map_size = map.size();
    AxisVec::new((i % map_size.y) as i32, (i / map_size.y) as i32)
}

} // verus!
