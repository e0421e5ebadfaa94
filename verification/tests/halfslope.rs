use tilebound::bitseq::BitSeq;
use tilebound::halfslope::collision::{Collision, EdgeRange};
use tilebound::halfslope::tile::{VertexEdge, VertexPattern, VertexTile, VertexTileConversionError};
use tilebound::halfslope::vertex_mask::VertexMask;
use tilebound::plane::axis::{AxisX, AxisY, DynAxis};
use tilebound::plane::axis_mask::AxisMask;
use tilebound::plane::axis_vec::AxisVec;
use tilebound::plane::endpoint::{Endpoint, EndpointBound};
use tilebound::plane::endpoint_pair::EndpointPair;
use tilebound::solid::collision::TileRange;
use tilebound::view::arraymap::ArrayMap;
use tilebound::view::index::SliceIndex;
use tilebound::view::inspect::TileMapInspect;

fn tri() -> ArrayMap<3, 1, 3, u8> {
    ArrayMap::new_unchecked([
        00, 07, 00, // Top-left triangle.
    ])
}

fn columns() -> ArrayMap<4, 2, 8, u8> {
    ArrayMap::new_unchecked([
        07, 13, //
        00, 15, //
        00, 00, //
        11, 14, //
    ])
}

fn solid_map() -> ArrayMap<3, 3, 9, u8> {
    ArrayMap::new_unchecked([
        1, 1, 1, //
        0, 1, 0, //
        1, 0, 0, //
    ])
}

#[test]
fn isolate_edge() {
    let tl_mask = VertexMask::BOTTOM_RIGHT_EXCL();
    let tl_left = tl_mask.isolate_edge::<AxisX>(Endpoint::LOWER());
    let tl_right = tl_mask.isolate_edge::<AxisX>(Endpoint::UPPER());
    let tl_top = tl_mask.isolate_edge::<AxisY>(Endpoint::LOWER());
    let tl_bottom = tl_mask.isolate_edge::<AxisY>(Endpoint::UPPER());
    assert_eq!(tl_left, AxisMask::Y());
    assert_eq!(tl_right, AxisMask::TOP());
    assert_eq!(tl_top, AxisMask::X());
    assert_eq!(tl_bottom, AxisMask::LEFT());

    let tr_mask = VertexMask::BOTTOM_LEFT_EXCL();
    let tr_left = tr_mask.isolate_edge::<AxisX>(Endpoint::LOWER());
    let tr_right = tr_mask.isolate_edge::<AxisX>(Endpoint::UPPER());
    let tr_top = tr_mask.isolate_edge::<AxisY>(Endpoint::LOWER());
    let tr_bottom = tr_mask.isolate_edge::<AxisY>(Endpoint::UPPER());
    assert_eq!(tr_left, AxisMask::TOP());
    assert_eq!(tr_right, AxisMask::Y());
    assert_eq!(tr_top, AxisMask::X());
    assert_eq!(tr_bottom, AxisMask::RIGHT());
}

#[test]
fn vertex_mask_constants() {
    assert_eq!(VertexMask::NONE().0, 0);
    assert_eq!(VertexMask::ALL().0, 15);
    assert_eq!(VertexMask::LEFT().0, 0b0011);
    assert_eq!(VertexMask::RIGHT().0, 0b1100);
    assert_eq!(VertexMask::TOP().0, 0b0101);
    assert_eq!(VertexMask::BOTTOM().0, 0b1010);
    assert_eq!(VertexMask::TOP_LEFT_INCL().0, 1);
    assert_eq!(VertexMask::BOTTOM_RIGHT_EXCL().0, 7);
}

#[test]
fn vertex_mask_transpose_twice_is_identity() {
    for bits in 0u8..=255 {
        let m = VertexMask::from_bits(bits);
        assert_eq!(m.transpose().transpose().0, bits & 15);
    }
    assert_eq!(VertexMask::BOTTOM_LEFT_INCL().transpose(), VertexMask::TOP_RIGHT_INCL());
    assert_eq!(VertexMask::LEFT().transpose(), VertexMask::TOP());
}

#[test]
fn vertex_mask_vertices() {
    let m = VertexMask::from_vertex::<AxisX>(Endpoint::RIGHT(), Endpoint::TOP());
    assert_eq!(m, VertexMask::TOP_RIGHT_INCL());
    assert!(m.vertex_is_set::<AxisX>(Endpoint::RIGHT(), Endpoint::TOP()));
    assert!(!m.vertex_is_set::<AxisX>(Endpoint::LEFT(), Endpoint::TOP()));
    assert!(m.vertex_is_set::<AxisY>(Endpoint::TOP(), Endpoint::RIGHT()));
    assert_eq!(VertexMask::from_dyn_vertex(DynAxis::Y, EndpointBound::Upper, EndpointBound::Lower), VertexMask::BOTTOM_LEFT_INCL());
    assert_eq!(VertexMask::from_axis::<AxisY>(Endpoint::BOTTOM()), VertexMask::BOTTOM());
    assert_eq!(VertexMask::from_dyn_edge(DynAxis::X, EndpointBound::Upper), VertexMask::RIGHT());
    assert!(VertexMask::LEFT().edge_all_set::<AxisX>(Endpoint::LEFT()));
    assert!(!VertexMask::TOP_LEFT_INCL().edge_all_set::<AxisX>(Endpoint::LEFT()));
    assert!(VertexMask::TOP_LEFT_INCL().edge_any_set::<AxisX>(Endpoint::LEFT()));
    assert!(!VertexMask::TOP_LEFT_INCL().edge_any_set::<AxisX>(Endpoint::RIGHT()));
    assert!(VertexMask::from_bit_index::<3>().index_is_set::<3>());
    assert_eq!(VertexMask::from_bit_index::<3>(), VertexMask::BOTTOM_RIGHT_INCL());
}

#[test]
fn vertex_mask_from_axismask() {
    assert_eq!(VertexMask::from_axismask(AxisMask::LEFT()), VertexMask::LEFT());
    assert_eq!(VertexMask::from_axismask(AxisMask::BOTTOM()), VertexMask::BOTTOM());
    assert_eq!(VertexMask::from_axismask(AxisMask::ALL()), VertexMask::ALL());
    assert_eq!(VertexMask::from_axismask(AxisMask::NONE()), VertexMask::NONE());
}

#[test]
fn vertex_mask_triangles() {
    let tl = VertexMask::BOTTOM_RIGHT_EXCL();
    assert_eq!(tl.tri_endpoint::<AxisX>(), Some(Endpoint::LOWER()));
    assert_eq!(tl.tri_endpoint::<AxisY>(), Some(Endpoint::LOWER()));
    assert_eq!(tl.tri_mask(), Some(VertexMask::TOP_LEFT_INCL()));
    let tr = VertexMask::BOTTOM_LEFT_EXCL();
    assert_eq!(tr.tri_endpoint::<AxisX>(), Some(Endpoint::UPPER()));
    assert_eq!(tr.tri_endpoint::<AxisY>(), Some(Endpoint::LOWER()));
    assert_eq!(tr.tri_mask(), Some(VertexMask::TOP_RIGHT_INCL()));
    assert_eq!(VertexMask::ALL().tri_endpoint::<AxisX>(), None);
    assert_eq!(VertexMask::ALL().tri_mask(), None);
}

#[test]
fn vertex_mask_compact_and_clear() {
    let m = VertexMask::BOTTOM_RIGHT_EXCL();
    assert_eq!(m.compact::<AxisX>(Endpoint::LOWER()), 0b11);
    assert_eq!(m.compact::<AxisX>(Endpoint::UPPER()), 0b01);
    assert_eq!(m.compact::<AxisY>(Endpoint::LOWER()), 0b11);
    assert_eq!(m.compact::<AxisY>(Endpoint::UPPER()), 0b01);
    let mut c = VertexMask::ALL();
    c.clear_edge::<AxisX>(Endpoint::LEFT());
    assert_eq!(c, VertexMask::RIGHT());
    assert_eq!(VertexMask::ALL().isolate_axis::<AxisY>(), AxisMask::X());
    assert!(VertexMask::ALL().all());
    assert!(VertexMask::NONE().none());
    assert!(VertexMask::LEFT().any());
    assert_eq!(VertexMask::LEFT().into_raw(), 3);
}

#[test]
fn vertex_pattern_conversion() {
    assert_eq!(VertexPattern::try_from(0u8), Ok(VertexPattern::Empty));
    assert_eq!(VertexPattern::try_from(15u8), Ok(VertexPattern::Full));
    assert_eq!(VertexPattern::try_from(7u8).map(|p| p.into_mask()), Ok(VertexMask(7)));
    let err = VertexPattern::try_from(16u8);
    assert_eq!(err, Err(VertexTileConversionError(VertexMask(16))));
    assert_eq!(VertexPattern::try_from(1u8), Err(VertexTileConversionError(VertexMask(1))));
    assert_eq!(VertexPattern::try_from(7u8), Ok(VertexPattern::TopLeftTri));
    assert_eq!(VertexTileConversionError(VertexMask(16)).mask(), VertexMask(16));
    assert_eq!(7u8.mask(), VertexMask(7));
}

#[test]
fn vertex_edge_from_bits() {
    assert_eq!(VertexEdge::from(0u8), VertexEdge::Empty);
    assert_eq!(VertexEdge::from(1u8), VertexEdge::Lower);
    assert_eq!(VertexEdge::from(2u8), VertexEdge::Upper);
    assert_eq!(VertexEdge::from(3u8), VertexEdge::All);
}

#[test]
fn sets_single_vertex() {
    let index = SliceIndex::<AxisY>::new_unchecked(1, 0..1, 1, Endpoint::UPPER());
    let edges = EdgeRange::inspect(&tri(), &index);

    assert_eq!(edges.array.to_vec(), vec![true, false]);
}

#[test]
fn set_edge_vertices() {
    let index = SliceIndex::<AxisY>::new_unchecked(1, 0..1, 1, Endpoint::LOWER());
    let edges = EdgeRange::inspect(&tri(), &index);

    assert_eq!(edges.array.to_vec(), vec![true, true]);
}

#[test]
fn lower_padding_is_cropped() {
    let index = SliceIndex::<AxisY>::new_unchecked(1, -1..1, 1, Endpoint::LOWER());
    let edges = EdgeRange::inspect(&tri(), &index);

    assert_eq!(edges.array.to_vec(), vec![true, true]);
    assert_eq!(edges.padding, EndpointPair::new(1, 0));
}

#[test]
fn upper_padding_is_cropped() {
    let index = SliceIndex::<AxisY>::new_unchecked(1, 0..2, 1, Endpoint::UPPER());
    let edges = EdgeRange::inspect(&tri(), &index);

    assert_eq!(edges.array.to_vec(), vec![true, false]);
    assert_eq!(edges.padding, EndpointPair::new(0, 1));
}

fn v(x: i32, y: i32) -> AxisVec<i32> {
    (x, y).into()
}

#[test]
fn collision_iter_in_bounds_col() {
    // Vertex edges of a column.
    let idx_0 = SliceIndex::<AxisY>::new_unchecked(0, -2..5, 4, Endpoint::LOWER());
    let idx_1 = SliceIndex::<AxisY>::new_unchecked(0, -2..5, 4, Endpoint::UPPER());
    let idx_2 = SliceIndex::<AxisY>::new_unchecked(1, 1..10, 4, Endpoint::LOWER());

    let c0 = EdgeRange::inspect(&columns(), &idx_0).iter_in_bounds();
    let c1 = EdgeRange::inspect(&columns(), &idx_1).iter_in_bounds();
    let c2 = EdgeRange::inspect(&columns(), &idx_2).iter_in_bounds();

    assert_eq!(
        c0,
        vec![
            (v(0, 0), VertexEdge::All),
            (v(0, 1), VertexEdge::Empty),
            (v(0, 2), VertexEdge::Empty),
            (v(0, 3), VertexEdge::All)
        ]
    );
    assert_eq!(
        c1,
        vec![
            (v(0, 0), VertexEdge::Lower),
            (v(0, 1), VertexEdge::Empty),
            (v(0, 2), VertexEdge::Empty),
            (v(0, 3), VertexEdge::Upper)
        ]
    );
    assert_eq!(
        c2,
        vec![(v(1, 1), VertexEdge::All), (v(1, 2), VertexEdge::Empty), (v(1, 3), VertexEdge::Upper)]
    );

    // Solid tiles of a column.
    let idx_0 = SliceIndex::<AxisY>::new_unchecked(0, -2..5, 3, Endpoint::LOWER());
    let idx_1 = SliceIndex::<AxisY>::new_unchecked(1, -2..5, 3, Endpoint::LOWER());
    let idx_2 = SliceIndex::<AxisY>::new_unchecked(2, -2..5, 3, Endpoint::LOWER());

    let c0 = TileRange::inspect(&solid_map(), &idx_0).iter_in_bounds();
    let c1 = TileRange::inspect(&solid_map(), &idx_1).iter_in_bounds();
    let c2 = TileRange::inspect(&solid_map(), &idx_2).iter_in_bounds();

    assert_eq!(c0, vec![(v(0, 0), true), (v(0, 1), false), (v(0, 2), true)]);
    assert_eq!(c1, vec![(v(1, 0), true), (v(1, 1), true), (v(1, 2), false)]);
    assert_eq!(c2, vec![(v(2, 0), true), (v(2, 1), false), (v(2, 2), false)]);
}

#[test]
fn collision_iter_in_bounds_row() {
    // Vertex edges of a row.
    let idx_0 = SliceIndex::<AxisX>::new_unchecked(0, -2..5, 2, Endpoint::LOWER());
    let idx_1 = SliceIndex::<AxisX>::new_unchecked(0, -2..5, 2, Endpoint::UPPER());
    let idx_2 = SliceIndex::<AxisX>::new_unchecked(3, 1..2, 2, Endpoint::LOWER());

    let r0 = EdgeRange::inspect(&columns(), &idx_0).iter_in_bounds();
    let r1 = EdgeRange::inspect(&columns(), &idx_1).iter_in_bounds();
    let r2 = EdgeRange::inspect(&columns(), &idx_2).iter_in_bounds();

    assert_eq!(r0, vec![(v(0, 0), VertexEdge::All), (v(1, 0), VertexEdge::All)]);
    assert_eq!(r1, vec![(v(0, 0), VertexEdge::Lower), (v(1, 0), VertexEdge::Upper)]);
    assert_eq!(r2, vec![(v(1, 3), VertexEdge::Upper)]);

    // Solid tiles of a row.
    let idx_0 = SliceIndex::<AxisX>::new_unchecked(0, -2..5, 3, Endpoint::LOWER());
    let idx_1 = SliceIndex::<AxisX>::new_unchecked(1, -2..5, 3, Endpoint::LOWER());
    let idx_2 = SliceIndex::<AxisX>::new_unchecked(2, -2..5, 3, Endpoint::LOWER());

    let r0 = TileRange::inspect(&solid_map(), &idx_0).iter_in_bounds();
    let r1 = TileRange::inspect(&solid_map(), &idx_1).iter_in_bounds();
    let r2 = TileRange::inspect(&solid_map(), &idx_2).iter_in_bounds();

    assert_eq!(r0, vec![(v(0, 0), true), (v(1, 0), true), (v(2, 0), true)]);
    assert_eq!(r1, vec![(v(0, 1), false), (v(1, 1), true), (v(2, 1), false)]);
    assert_eq!(r2, vec![(v(0, 2), true), (v(1, 2), false), (v(2, 2), false)]);
}

#[test]
fn edge_range_iter_all_pads() {
    let idx = SliceIndex::<AxisY>::new_unchecked(0, -1..5, 4, Endpoint::LOWER());
    let edges = EdgeRange::inspect(&columns(), &idx);
    assert_eq!(edges.padding, EndpointPair::new(1, 1));
    let all = edges.iter_all();
    assert_eq!(
        all,
        vec![
            (v(0, -1), VertexEdge::Empty),
            (v(0, 0), VertexEdge::All),
            (v(0, 1), VertexEdge::Empty),
            (v(0, 2), VertexEdge::Empty),
            (v(0, 3), VertexEdge::All),
            (v(0, 4), VertexEdge::Empty)
        ]
    );
}

#[test]
fn edge_range_extremes_and_collisions() {
    let e = EdgeRange::<AxisY>::extreme(0, 0..3, Endpoint::TOP(), Endpoint::RIGHT());
    assert_eq!(e.array.to_vec(), vec![true, false, false, false, false, false]);
    assert_eq!(e.len(), 3);
    assert!(!e.inner_collision());
    assert_eq!(e.trimask(), VertexMask::TOP_LEFT_INCL());

    let e = EdgeRange::<AxisY>::extremes(0, 0..3, Endpoint::UPPER());
    assert_eq!(e.array.to_vec(), vec![true, false, false, false, false, true]);
    assert!(!e.inner_collision());
    assert_eq!(e.trimask(), VertexMask::from_dyn_edge(DynAxis::X, EndpointBound::Lower));

    let inner = EdgeRange::<AxisY>::from_array(
        (0, 0),
        Endpoint::UPPER(),
        BitSeq::from_bools(&[true, false, true, false, false, true]),
    );
    assert!(inner.inner_collision());
    assert!(inner.truncated_inner_collision(Endpoint::UPPER(), 1));
    assert!(!inner.truncated_inner_collision(Endpoint::LOWER(), 1));
    assert!(!inner.truncated_inner_collision(Endpoint::LOWER(), 2));

    let two = EdgeRange::<AxisX>::from_array((0, 0), Endpoint::LOWER(), BitSeq::from_bools(&[true, true]));
    assert!(two.inner_collision());
    assert_eq!(two.end(), Endpoint::LOWER());
    let padded = two.clone().with_padding(EndpointPair::new(2, 3));
    assert_eq!(padded.padding, EndpointPair::new(2, 3));
    assert_eq!(padded.array, two.array);
}

#[test]
fn collision_into_control_flow() {
    let cf: std::ops::ControlFlow<Collision<AxisX>> = Collision::<AxisX>::MapBound.into();
    assert_eq!(cf, std::ops::ControlFlow::Break(Collision::MapBound));
}
