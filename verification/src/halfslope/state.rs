use vstd::prelude::*;

use crate::ctx::state::spec_beyond;
use crate::halfslope::vertex_mask::VertexMask;
use crate::plane::axis::AxisValue;
use crate::plane::endpoint::Endpoint;

verus! {

/// Set the triangle vertices of the edge at `end` of axis `A` of the state resource `res` to
/// those of `mask`: the vertices of the edge are cleared, then those of `mask` set.
pub fn set_tris<A: AxisValue>(res: &mut VertexMask, end: Endpoint<A>, mask: VertexMask)
    ensures
        final(res).0 == (old(res).0 & !VertexMask::spec_edge_bits(A::spec_dyn(), end.bound))
            | mask.0,
{
    res.clear_edge::<A>(end);
    res.0 = res.0 | mask.0;
}

/// Clear the triangle vertices of the back edge (the inverse of the inbound endpoint `end` of
/// axis `A`) where the tile index of that edge moved beyond its last index toward `end`: the
/// triangles there are no longer intersected.
pub fn clear_disjoint_tris<A: AxisValue>(
    res: &mut VertexMask,
    end: Endpoint<A>,
    idx_curr: i32,
    idx_last: i32,
)
    ensures
        final(res).0 == (if spec_beyond(end.bound, idx_curr as int, idx_last as int) {
            old(res).0 & !VertexMask::spec_edge_bits(A::spec_dyn(), end.bound.spec_invert())
        } else {
            old(res).0
        }),
{
    if end.bound.gt(idx_curr, idx_last) {
        res.clear_edge::<A>(end.invert());
    }
}

} // verus!
