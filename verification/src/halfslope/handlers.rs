use vstd::prelude::*;

use crate::ctx::state::DetachOp;
use crate::halfslope::collision::EdgeRange;
use crate::halfslope::context::{Attach, Slide};
use crate::halfslope::vertex_mask::{spec_count_ones, VertexMask};
use crate::plane::axis::{Axis, AxisValue, DynAxis};
use crate::plane::axis_mask::AxisMask;
use crate::plane::endpoint::Endpoint;
use crate::plane::endpoint_pair::EndpointPair;

verus! {

/// # TileStep
///
/// The next step of a vertex handler on the tiles that a target vertex enters or moves
/// within, from the triangle vertices found there.
#[derive(Debug, Clone, Copy, PartialEq, Eq, Structural)]
pub enum TileStep<T> {
    /// Attach and end displacement on the tile bound.
    Attach,
    /// Handle a wedge: triangles at both extremes of the edge.
    Wedge,
    /// Handle a single triangle at the given endpoint of the transpose axis.
    Tri(Endpoint<T>),
    /// Move to the target.
    Continue,
}

/// The triangle step of an axis mask of adjacent triangle vertices on axis `t`: a wedge where
/// both endpoints are set, else a triangle at the first set endpoint, else none.
pub open spec fn spec_tri_step<T>(adj: AxisMask, t: DynAxis) -> TileStep<T> {
    if adj.0 & AxisMask::spec_axis_bits(t) == AxisMask::spec_axis_bits(t) {
        TileStep::Wedge
    } else {
        match adj.spec_first_end(t) {
            Some(b) => TileStep::Tri(Endpoint::<T>::spec_of(b)),
            None => TileStep::Continue,
        }
    }
}

impl Slide {
    /// The step of the slide handler on entering the tiles of `coll`: the vertices of the edge
    /// ahead, on the transpose axis `B` of displacement. On a wedge, attach where the transpose
    /// edge is on its lower tile bound and a multiple of the tile size, else handle the wedge;
    /// else handle a single triangle, or continue.
    pub fn next_tile_step<B: Axis>(coll: &EdgeRange<B>, t_lower_unpadded: bool) -> (r: TileStep<B>)
        requires
            coll.spec_bits().len() >= 2,
            !coll.spec_inner_collision(),
        ensures
            ({
                let adj = AxisMask(
                    VertexMask(coll.spec_trimask()).spec_isolate_axis(<B::T as AxisValue>::spec_dyn()),
                );
                r == if spec_count_ones(adj.0) == 2 {
                    if t_lower_unpadded {
                        TileStep::Attach
                    } else {
                        TileStep::Wedge
                    }
                } else {
                    match adj.spec_first_end(B::spec_dyn()) {
                        Some(b) => TileStep::Tri(Endpoint::<B>::spec_of(b)),
                        None => TileStep::Continue,
                    }
                }
            }),
    {
        proof {
            B::lemma_transpose();
        }
        let adj_tris = coll.trimask().isolate_axis::<B::T>();
        if adj_tris.0.count_ones() == 2 {
            if t_lower_unpadded {
                TileStep::Attach
            } else {
                TileStep::Wedge
            }
        } else {
            match adj_tris.first_end::<B>() {
                Some(t_sign) => TileStep::Tri(t_sign),
                None => TileStep::Continue,
            }
        }
    }
}

impl Attach {
    /// The step of the attach handler on entering the tiles of `coll`: the vertices of the edge
    /// ahead, on the transpose axis `B` of displacement. On a wedge, attach where the transpose
    /// edge is on either tile bound (`t_on_bound`), else handle the wedge; on a single triangle,
    /// attach where the transpose edge is on the bound of its endpoint, else handle the
    /// triangle; else continue.
    pub fn next_tile_step<B: Axis>(coll: &EdgeRange<B>, t_on_bound: EndpointPair<B, bool>) -> (r:
        TileStep<B>)
        requires
            coll.spec_bits().len() >= 2,
            !coll.spec_inner_collision(),
        ensures
            ({
                let adj = AxisMask(
                    VertexMask(coll.spec_trimask()).spec_isolate_axis(<B::T as AxisValue>::spec_dyn()),
                );
                r == match spec_tri_step::<B>(adj, B::spec_dyn()) {
                    TileStep::Wedge => if t_on_bound.lower || t_on_bound.upper {
                        TileStep::Attach
                    } else {
                        TileStep::Wedge
                    },
                    TileStep::Tri(e) => if t_on_bound.spec_get(e.bound) {
                        TileStep::Attach
                    } else {
                        TileStep::Tri(e)
                    },
                    other => other,
                }
            }),
    {
        proof {
            B::lemma_transpose();
        }
        let adj_tris = coll.trimask().isolate_axis::<B::T>();
        if adj_tris.all_on_axis::<B>() {
            if t_on_bound.lower() || t_on_bound.upper() {
                TileStep::Attach
            } else {
                TileStep::Wedge
            }
        } else {
            match adj_tris.first_end::<B>() {
                Some(t_sign) => if t_on_bound.get(t_sign) {
                    TileStep::Attach
                } else {
                    TileStep::Tri(t_sign)
                },
                None => TileStep::Continue,
            }
        }
    }
}

/// The step of a vertex handler on moving within already intersected tiles: from the
/// triangle vertices of the state resource `res` on the edge at `end` of axis `A`, handle a
/// wedge, a single triangle, or continue.
pub fn intersected_tile_step<A: Axis>(res: VertexMask, end: Endpoint<A>) -> (r: TileStep<A::T>)
    ensures
        r == spec_tri_step::<A::T>(
            AxisMask(res.spec_isolate_edge(A::spec_dyn(), end.bound)),
            <A::T as AxisValue>::spec_dyn(),
        ),
{
    proof {
        A::lemma_transpose();
    }
    let adj_tris = res.isolate_edge::<A>(end);
    if adj_tris.all_on_axis::<A::T>() {
        TileStep::Wedge
    } else {
        match adj_tris.first_end::<A::T>() {
            Some(t_sign) => TileStep::Tri(t_sign),
            None => TileStep::Continue,
        }
    }
}

/// The state filter of the triangle-aware stale detachment of the transpose axis on
/// displacement on axis `A` (inbound endpoint `end`), attached at `t_end`: detach where the back
/// vertex at `t_end` is on a triangle hypotenuse; check the next tiles where the transpose edge
/// is on its tile bound (`t_on_bound`) and the back edge left its tile or a triangle vertex
/// (`back_leaving`); else keep attached.
pub fn stale_state_op<A: Axis>(
    res: VertexMask,
    end: Endpoint<A>,
    t_end: Endpoint<A::T>,
    t_on_bound: bool,
    back_leaving: bool,
) -> (r: DetachOp)
    ensures
        r == if res.spec_vertex_set(A::spec_dyn(), end.bound.spec_invert(), t_end.bound) {
            DetachOp::Detach
        } else if t_on_bound && back_leaving {
            DetachOp::CheckNextTiles
        } else {
            DetachOp::Break
        },
{
    if res.vertex_is_set::<A>(end.invert(), t_end) {
        DetachOp::Detach
    } else if t_on_bound && back_leaving {
        DetachOp::CheckNextTiles
    } else {
        DetachOp::Break
    }
}

/// The inspection filter of the triangle-aware stale detachment: detach where no inner vertex
/// of the next tiles `t_view` (on axis `A`, the displacement axis, for inbound endpoint `end`)
/// is set, unless the back edge is on a tile bound at a triangle vertex (`back_on_bound`), or the
/// front edge is on a tile bound at a triangle vertex and a multiple of the tile size
/// (`front_on_bound_unpadded`).
pub fn stale_after_inspect<A: Axis>(
    t_view: &EdgeRange<A>,
    end: Endpoint<A>,
    back_on_bound: bool,
    front_on_bound_unpadded: bool,
) -> (r: bool)
    requires
        t_view.spec_bits().len() >= 2,
    ensures
        r == (!t_view.spec_inner_collision() && {
            let tris = AxisMask(
                VertexMask(t_view.spec_trimask()).spec_isolate_axis(<A::T as AxisValue>::spec_dyn()),
            );
            !(tris.spec_end_set(A::spec_dyn(), end.bound.spec_invert()) && back_on_bound || (
            tris.spec_end_set(A::spec_dyn(), end.bound) && front_on_bound_unpadded))
        }),
{
    proof {
        A::lemma_transpose();
    }
    if t_view.inner_collision() {
        false
    } else {
        let tris = t_view.trimask().isolate_axis::<A::T>();
        !(tris.end_is_set::<A>(end.invert()) && back_on_bound || (tris.end_is_set::<A>(end)
            && front_on_bound_unpadded))
    }
}

} // verus!
