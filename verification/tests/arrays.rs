use tilebound::plane::axis::{AxisX, AxisY};
use tilebound::plane::axis_vec::AxisVec;
use tilebound::view::mdmap::MdMap;
use tilebound::view::ndmap::NdMap;
use tilebound::view::tilemap::{TileMap, TileMapView};

#[test]
fn impl_ndarray_axis_size() {
    let map = NdMap::zeros(3, 4);
    assert_eq!(map.axis_len::<AxisX>(), 3);
    assert_eq!(map.axis_len::<AxisY>(), 4);
}

#[test]
fn impl_ndarray_is_in_bounds() {
    let map = NdMap::zeros(3, 4);
    assert!(map.is_in_bounds::<AxisX>(0));
    assert!(map.is_in_bounds::<AxisX>(2));
    assert!(!map.is_in_bounds::<AxisX>(-1));
    assert!(!map.is_in_bounds::<AxisX>(3));
}

#[test]
fn impl_ndarray_range_is_in_bounds() {
    let map = NdMap::zeros(3, 4);
    assert!(map.range_is_in_bounds::<AxisX>(0, -1..1));
    assert!(map.range_is_in_bounds::<AxisX>(2, 3..5));
    assert!(!map.range_is_in_bounds::<AxisX>(0, -2..-1));
    assert!(!map.range_is_in_bounds::<AxisX>(2, 4..5));
}

#[test]
fn impl_ndarray_view() {
    let mut map = NdMap::zeros(3, 4);
    for y in 0..4 {
        map.set(0, y, 1);
    }
    assert_eq!(TileMapView::<AxisX>::view(&map, 0, 0..4), [1, 1, 1, 1]);
    assert_eq!(TileMapView::<AxisY>::view(&map, 0, 0..3), [1, 0, 0]);
}

#[test]
fn ndarray_size_and_tiles() {
    let mut map = NdMap::zeros(2, 3);
    assert_eq!(map.size(), AxisVec::new(2, 3));
    map.set(1, 2, 7);
    assert_eq!(map.get(1, 2), 7);
    assert_eq!(map.get(0, 2), 0);
    assert_eq!(TileMapView::<AxisY>::view(&map, 2, 0..2), [0, 7]);
    assert_eq!(TileMapView::<AxisX>::view(&map, 1, 1..3), [0, 7]);
}

#[test]
fn impl_mdarray_axis_size() {
    let map = MdMap::zeros(3, 4);
    assert_eq!(map.axis_len::<AxisX>(), 3);
    assert_eq!(map.axis_len::<AxisY>(), 4);
}

#[test]
fn impl_mdarray_is_in_bounds() {
    let map = MdMap::zeros(3, 4);
    assert!(map.is_in_bounds::<AxisX>(0));
    assert!(map.is_in_bounds::<AxisX>(2));
    assert!(!map.is_in_bounds::<AxisX>(-1));
    assert!(!map.is_in_bounds::<AxisX>(3));
}

#[test]
fn impl_mdarray_range_is_in_bounds() {
    let map = MdMap::zeros(3, 4);
    assert!(map.range_is_in_bounds::<AxisX>(0, -1..1));
    assert!(map.range_is_in_bounds::<AxisX>(2, 3..5));
    assert!(!map.range_is_in_bounds::<AxisX>(0, -2..-1));
    assert!(!map.range_is_in_bounds::<AxisX>(2, 4..5));
}

#[test]
fn impl_mdarray_view() {
    let mut map = MdMap::zeros(3, 4);
    for y in 0..4 {
        map.set(0, y, 1);
    }
    assert_eq!(TileMapView::<AxisX>::view(&map, 0, 0..4), [1, 1, 1, 1]);
    assert_eq!(TileMapView::<AxisY>::view(&map, 0, 0..3), [1, 0, 0]);
}

#[test]
fn mdarray_size_and_tiles() {
    let mut map = MdMap::zeros(2, 3);
    assert_eq!(map.size(), AxisVec::new(2, 3));
    map.set(1, 2, 7);
    assert_eq!(map.get(1, 2), 7);
    assert_eq!(map.get(0, 2), 0);
    assert_eq!(TileMapView::<AxisY>::view(&map, 2, 0..2), [0, 7]);
    assert_eq!(TileMapView::<AxisX>::view(&map, 1, 1..3), [0, 7]);
}
