use tilebound::ctx::scene::Scene;
use tilebound::ctx::state::{attach, detach, detach_stale, DetachOp};
use tilebound::halfslope::collision::EdgeRange;
use tilebound::halfslope::context::{Attach, Slide};
use tilebound::halfslope::handlers::{intersected_tile_step, stale_after_inspect, stale_state_op, TileStep};
use tilebound::halfslope::state::{clear_disjoint_tris, set_tris};
use tilebound::halfslope::vertex_mask::VertexMask;
use tilebound::ops::displace::{skip_from_map_step, skip_to_map_step, SkipToMap};
use tilebound::ops::scale::array_index_to_tile_index;
use tilebound::plane::axis::{AxisX, AxisY};
use tilebound::plane::axis_mask::AxisMask;
use tilebound::plane::axis_vec::AxisVec;
use tilebound::plane::endpoint::Endpoint;
use tilebound::plane::endpoint_pair::EndpointPair;
use tilebound::plane::scale::ConSc;
use tilebound::solid::collision::TileRange;
use tilebound::view::arraymap::ArrayMap;
use tilebound::bitseq::BitSeq;

type Sc = ConSc<16>;

fn solid_scene() -> Scene<Sc, ArrayMap<3, 3, 9, u8>> {
    Scene::new(
        ArrayMap::new_unchecked([
            1, 1, 1, //
            0, 0, 0, //
            1, 0, 1, //
        ]),
        AxisMask::NONE(),
    )
}

fn check_next(_end: Endpoint<AxisY>) -> DetachOp {
    DetachOp::CheckNextTiles
}

fn no_tile(_end: Endpoint<AxisY>, tiles: &TileRange<AxisX>) -> bool {
    !tiles.collided()
}

#[test]
fn attach_replaces_axis_endpoint() {
    let mut m = AxisMask::LEFT() ;
    m.0 |= AxisMask::TOP().0;
    attach::<AxisX>(&mut m, Endpoint::RIGHT());
    assert!(m.right());
    assert!(!m.left());
    assert!(m.top());
    detach::<AxisX>(&mut m);
    assert_eq!(m, AxisMask::TOP());
    detach::<AxisY>(&mut m);
    assert_eq!(m, AxisMask::NONE());
}

#[test]
fn detach_stale_on_leaving_edge() {
    let scene = solid_scene();
    let mut m = AxisMask::BOTTOM();
    let indices = EndpointPair::<AxisY, i32>::new(0, 0);
    let r = detach_stale::<AxisX, Sc, _, TileRange<AxisX>, _, _>(&mut m, indices, 0..1, &scene, check_next, no_tile);
    assert_eq!(m, AxisMask::NONE());
    assert_eq!(r.map(|t| t.array.to_vec()), Some(vec![false]));
}

#[test]
fn detach_stale_keeps_on_tile() {
    let scene = solid_scene();
    let mut m = AxisMask::BOTTOM();
    let indices = EndpointPair::<AxisY, i32>::new(1, 1);
    let r = detach_stale::<AxisX, Sc, _, TileRange<AxisX>, _, _>(&mut m, indices, 0..1, &scene, check_next, no_tile);
    assert_eq!(m, AxisMask::BOTTOM());
    assert_eq!(r.map(|t| t.array.to_vec()), Some(vec![true]));
}

#[test]
fn detach_stale_on_map_bounds() {
    let scene = solid_scene();
    // Attached to the bottom map bound from the inside.
    let mut m = AxisMask::BOTTOM();
    let r = detach_stale::<AxisX, Sc, _, TileRange<AxisX>, _, _>(&mut m, EndpointPair::new(2, 2), 0..1, &scene, check_next, no_tile);
    assert!(r.is_none());
    assert_eq!(m, AxisMask::BOTTOM());
    // Attached to the top map bound from the inside.
    let mut m = AxisMask::TOP();
    let r = detach_stale::<AxisX, Sc, _, TileRange<AxisX>, _, _>(&mut m, EndpointPair::new(0, 0), 0..1, &scene, check_next, no_tile);
    assert!(r.is_none());
    assert_eq!(m, AxisMask::TOP());
    // Attached from outside of the map.
    let mut m = AxisMask::BOTTOM();
    let r = detach_stale::<AxisX, Sc, _, TileRange<AxisX>, _, _>(&mut m, EndpointPair::new(-5, -5), 0..1, &scene, check_next, no_tile);
    assert!(r.is_none());
    assert_eq!(m, AxisMask::NONE());
}

#[test]
fn detach_stale_state_filter() {
    let scene = solid_scene();
    let mut m = AxisMask::BOTTOM();
    m.0 |= AxisMask::LEFT().0;
    let r = detach_stale::<AxisX, Sc, _, TileRange<AxisX>, _, _>(&mut m, EndpointPair::new(0, 0), 0..1, &scene, |_| DetachOp::Break, no_tile);
    assert!(r.is_none());
    assert_eq!(m.0, AxisMask::BOTTOM().0 | AxisMask::LEFT().0);
    let r = detach_stale::<AxisX, Sc, _, TileRange<AxisX>, _, _>(&mut m, EndpointPair::new(0, 0), 0..1, &scene, |_| DetachOp::Detach, no_tile);
    assert!(r.is_none());
    assert_eq!(m, AxisMask::LEFT());
    // Not attached on the transpose axis: nothing happens.
    let r = detach_stale::<AxisX, Sc, _, TileRange<AxisX>, _, _>(&mut m, EndpointPair::new(0, 0), 0..1, &scene, check_next, no_tile);
    assert!(r.is_none());
    assert_eq!(m, AxisMask::LEFT());
}

#[test]
fn scene_inspects_intersected_slice() {
    let scene = solid_scene();
    // A right vertex in column 1: the left-hand side of column 1, over rows 0..2.
    let idx = scene.index_intersected::<AxisY>(1, Endpoint::RIGHT(), 0..2).unwrap();
    assert_eq!(idx.t_index, 1);
    assert_eq!(idx.end, Endpoint::LEFT());
    assert_eq!(idx.range_lmt, 3);
    let tiles: TileRange<AxisY> = scene.inspect_intersected::<AxisY, _>(1, Endpoint::RIGHT(), 0..2).unwrap();
    assert_eq!(tiles.array.to_vec(), vec![true, false]);
    let err = scene.inspect_intersected::<AxisY, TileRange<AxisY>>(3, Endpoint::RIGHT(), 0..2);
    assert!(err.is_err());
    let row: TileRange<AxisX> = scene.inspect_index::<AxisX, _>(2, Endpoint::TOP(), -1..2).unwrap();
    assert_eq!(row.array.to_vec(), vec![true, false]);
    assert_eq!(row.padding, EndpointPair::new(1, 0));
    assert_eq!(scene.size(), AxisVec::new(3, 3));
}

#[test]
fn scene_over_borrowed_map() {
    let map: ArrayMap<3, 3, 9, u8> = ArrayMap::new_unchecked([
        1, 1, 1, //
        0, 0, 0, //
        1, 0, 1, //
    ]);
    let scene: Scene<Sc, &ArrayMap<3, 3, 9, u8>> = Scene::new(&map, AxisMask::NONE());
    assert_eq!(scene.size(), AxisVec::new(3, 3));
    let tiles: TileRange<AxisY> = scene.inspect_intersected::<AxisY, _>(1, Endpoint::RIGHT(), 0..2).unwrap();
    assert_eq!(tiles.array.to_vec(), vec![true, false]);
}

#[test]
fn skip_steps() {
    let map = solid_scene().map;
    // Transpose range misses the map: parallel to it.
    assert_eq!(skip_to_map_step::<AxisX, _>(Endpoint::RIGHT(), -4, 5..6, &map), SkipToMap::Parallel);
    // Left of the map moving right: toward it, up to the tile before column 0.
    assert_eq!(skip_to_map_step::<AxisX, _>(Endpoint::RIGHT(), -4, 0..1, &map), SkipToMap::Toward(-1));
    // Right of the map moving left: toward it, up to the tile after column 2.
    assert_eq!(skip_to_map_step::<AxisX, _>(Endpoint::LEFT(), 7, 0..1, &map), SkipToMap::Toward(3));
    assert_eq!(skip_to_map_step::<AxisX, _>(Endpoint::RIGHT(), 1, 0..1, &map), SkipToMap::InBounds);
    assert!(skip_from_map_step::<AxisX, _>(Endpoint::RIGHT(), 3, &map));
    assert!(!skip_from_map_step::<AxisX, _>(Endpoint::RIGHT(), 2, &map));
    assert!(skip_from_map_step::<AxisX, _>(Endpoint::LEFT(), -1, &map));
}

#[test]
fn array_index_to_tile() {
    let map = VecMapLike::new();
    assert_eq!(array_index_to_tile_index(7, map.0), AxisVec::new(1, 2));
}

struct VecMapLike(ArrayMap<4, 3, 12, u8>);

impl VecMapLike {
    fn new() -> Self {
        VecMapLike(ArrayMap::new_unchecked([0; 12]))
    }
}

#[test]
fn tris_state() {
    let mut res = VertexMask::ALL();
    set_tris::<AxisX>(&mut res, Endpoint::LEFT(), VertexMask::TOP_LEFT_INCL());
    assert_eq!(res.0, VertexMask::RIGHT().0 | VertexMask::TOP_LEFT_INCL().0);
    // The back (left) edge moved right: its triangles are cleared.
    clear_disjoint_tris::<AxisX>(&mut res, Endpoint::RIGHT(), 2, 1);
    assert_eq!(res, VertexMask::RIGHT());
    clear_disjoint_tris::<AxisX>(&mut res, Endpoint::RIGHT(), 1, 1);
    assert_eq!(res, VertexMask::RIGHT());
}

#[test]
fn handler_steps() {
    // A triangle vertex at the top extreme of the column ahead.
    let tri = EdgeRange::<AxisY>::extreme(0, 0..1, Endpoint::TOP(), Endpoint::RIGHT());
    assert_eq!(Slide::next_tile_step(&tri, false), TileStep::Tri(Endpoint::TOP()));
    assert_eq!(Attach::next_tile_step(&tri, EndpointPair::new(false, false)), TileStep::Tri(Endpoint::TOP()));
    assert_eq!(Attach::next_tile_step(&tri, EndpointPair::new(true, false)), TileStep::Attach);
    // A wedge: triangle vertices at both extremes.
    let wedge = EdgeRange::<AxisY>::extremes(0, 0..2, Endpoint::UPPER());
    assert_eq!(Slide::next_tile_step(&wedge, false), TileStep::Wedge);
    assert_eq!(Slide::next_tile_step(&wedge, true), TileStep::Attach);
    assert_eq!(Attach::next_tile_step(&wedge, EndpointPair::new(false, false)), TileStep::Wedge);
    assert_eq!(Attach::next_tile_step(&wedge, EndpointPair::new(false, true)), TileStep::Attach);
    // No vertex.
    let none = EdgeRange::<AxisY>::new(0, 0..2, Endpoint::UPPER());
    assert_eq!(Slide::next_tile_step(&none, true), TileStep::Continue);
    // Intersected tiles.
    assert_eq!(intersected_tile_step::<AxisX>(VertexMask::LEFT(), Endpoint::LEFT()), TileStep::Wedge);
    assert_eq!(intersected_tile_step::<AxisX>(VertexMask::BOTTOM_LEFT_INCL(), Endpoint::LEFT()), TileStep::Tri(Endpoint::BOTTOM()));
    assert_eq!(intersected_tile_step::<AxisX>(VertexMask::BOTTOM_LEFT_INCL(), Endpoint::RIGHT()), TileStep::Continue);
}

#[test]
fn stale_filters() {
    // The back vertex at the bottom is on a triangle hypotenuse: detach.
    let res = VertexMask::BOTTOM_LEFT_INCL();
    assert_eq!(stale_state_op::<AxisX>(res, Endpoint::RIGHT(), Endpoint::BOTTOM(), false, false), DetachOp::Detach);
    assert_eq!(stale_state_op::<AxisX>(VertexMask::NONE(), Endpoint::RIGHT(), Endpoint::BOTTOM(), true, true), DetachOp::CheckNextTiles);
    assert_eq!(stale_state_op::<AxisX>(VertexMask::NONE(), Endpoint::RIGHT(), Endpoint::BOTTOM(), true, false), DetachOp::Break);
    // Next tiles with an inner vertex: keep attached.
    let inner = EdgeRange::<AxisX>::from_array((0, 0), Endpoint::UPPER(), BitSeq::from_bools(&[true, false, true, false, false, true]));
    assert!(!stale_after_inspect(&inner, Endpoint::RIGHT(), false, false));
    // Next tiles empty: detach.
    let empty = EdgeRange::<AxisX>::new(0, 0..2, Endpoint::UPPER());
    assert!(stale_after_inspect(&empty, Endpoint::RIGHT(), false, false));
    // On the back triangle vertex: keep attached.
    let tri = EdgeRange::<AxisX>::extreme(0, 0..2, Endpoint::LEFT(), Endpoint::BOTTOM());
    assert!(!stale_after_inspect(&tri, Endpoint::RIGHT(), true, false));
    assert!(stale_after_inspect(&tri, Endpoint::RIGHT(), false, true));
}

fn break_op(_end: Endpoint<AxisY>) -> DetachOp {
    DetachOp::Break
}

#[test]
fn detach_stale_break_on_empty_map() {
    let scene: Scene<Sc, ArrayMap<0, 0, 0, u8>> = Scene::new(ArrayMap::new_unchecked([]), AxisMask::NONE());
    let mut m = AxisMask::TOP();
    let indices = EndpointPair::<AxisY, i32>::new(i32::MIN, i32::MAX);
    let r = detach_stale::<AxisX, Sc, _, TileRange<AxisX>, _, _>(&mut m, indices, 5..2, &scene, break_op, no_tile);
    assert_eq!(m, AxisMask::TOP());
    assert!(r.is_none());
    let mut none = AxisMask::NONE();
    let r = detach_stale::<AxisX, Sc, _, TileRange<AxisX>, _, _>(&mut none, indices, 5..2, &scene, check_next, no_tile);
    assert_eq!(none, AxisMask::NONE());
    assert!(r.is_none());
}
