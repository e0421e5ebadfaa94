use tilebound::plane::axis::{AxisX, AxisY};
use tilebound::plane::axis_vec::AxisVec;
use tilebound::plane::endpoint::Endpoint;
use tilebound::plane::endpoint_pair::EndpointPair;
use tilebound::solid::collision::TileRange;
use tilebound::bitseq::BitSeq;
use tilebound::view::arraymap::{ArrayMap, VecMap};
use tilebound::view::bitmap::BitMap;
use tilebound::view::packmap::{PackByte, PackMap};
use subbyte_index::{Lsb, Msb, SubByteIndex, SubByteIndexMut, W2, W4};
use tilebound::view::index::{SliceIndex, SliceIndexError};
use tilebound::view::inspect::TileMapInspect;
use tilebound::view::tilemap::{TileMap, TileMapView};

fn map_4x3() -> ArrayMap<4, 3, 12, u8> {
    ArrayMap::new_unchecked([
        00, 01, 02, //
        03, 04, 05, //
        06, 07, 08, //
        09, 10, 11, //
    ])
}

fn vec_4x3() -> VecMap<u8> {
    VecMap::<u8>::new([00, 01, 02, 03, 04, 05, 06, 07, 08, 09, 10, 11].to_vec(), (4, 3))
}

fn solid_map() -> ArrayMap<3, 3, 9, u8> {
    ArrayMap::new_unchecked([
        1, 1, 1, //
        0, 1, 0, //
        1, 0, 0, //
    ])
}

fn v(x: i32, y: i32) -> AxisVec<i32> {
    (x, y).into()
}

#[test]
fn try_new() {
    let end = Endpoint::LOWER();
    let map_bounds = AxisVec::new(8, 8);
    let idx_0 = SliceIndex::<AxisX>::try_new(0, (1..2).into(), end, map_bounds);
    let idx_1 = SliceIndex::<AxisX>::try_new(-1, (1..2).into(), end, map_bounds);
    let idx_2 = SliceIndex::<AxisX>::try_new(8, (1..2).into(), end, map_bounds);
    let idx_3 = SliceIndex::<AxisX>::try_new(0, (-2..2).into(), end, map_bounds);
    let idx_4 = SliceIndex::<AxisX>::try_new(0, (6..10).into(), end, map_bounds);
    let idx_5 = SliceIndex::<AxisX>::try_new(0, (-2..10).into(), end, map_bounds);
    let idx_6 = SliceIndex::<AxisX>::try_new(0, (-2..-1).into(), end, map_bounds);
    let idx_7 = SliceIndex::<AxisX>::try_new(0, (8..9).into(), end, map_bounds);

    assert!(idx_0.is_ok());
    assert!(idx_1.is_err());
    assert!(idx_2.is_err());
    assert!(idx_3.is_ok());
    assert!(idx_4.is_ok());
    assert!(idx_5.is_ok());
    assert!(idx_6.is_err());
    assert!(idx_7.is_err());
}

#[test]
fn try_new_error_holds_arguments() {
    let map_bounds = AxisVec::new(8, 8);
    let err = SliceIndex::<AxisX>::try_new(-1, 1..2, Endpoint::UPPER(), map_bounds);
    assert_eq!(err.err(), Some(SliceIndexError::<AxisX>::new(-1, 1..2, Endpoint::UPPER())));
}

#[test]
fn index_padding() {
    let map_bounds = AxisVec::new(3, 3);
    let idx = SliceIndex::<AxisX>::try_new(0, (-2..5).into(), Endpoint::LOWER(), map_bounds).unwrap();

    assert_eq!(idx.padding(), (2, 2).into());
}

#[test]
fn range_cropped() {
    let map_bounds = AxisVec::new(3, 3);
    let idx = SliceIndex::<AxisX>::try_new(0, (-2..5).into(), Endpoint::LOWER(), map_bounds).unwrap();

    assert_eq!(idx.range_cropped(), 0..3);
}

#[test]
fn len_cropped() {
    let map_bounds = AxisVec::new(3, 3);
    let idx = SliceIndex::<AxisX>::try_new(0, (-2..5).into(), Endpoint::LOWER(), map_bounds).unwrap();

    assert_eq!(idx.len_cropped(), 3);
}

#[test]
fn slice_index_accessors() {
    let idx = SliceIndex::<AxisY>::new_unchecked(2, -1..6, 4, Endpoint::RIGHT());
    assert_eq!(idx.t_index(), 2);
    assert_eq!(idx.range(), -1..6);
    assert_eq!(idx.len(), 7);
    assert_eq!(idx.inbound_range_start(), 0);
    assert_eq!(idx.inbound_range_end(), 4);
    assert_eq!(idx.range_cropped(), 0..4);
    assert_eq!(idx.len_cropped(), 4);
    assert_eq!(idx.padding(), EndpointPair::new(1, 2));
    assert_eq!(idx.start_index(), v(-1, 3));
}

#[test]
fn arraymap_axis_size() {
    let map = map_4x3();
    assert_eq!(map.axis_len::<AxisX>(), 4);
    assert_eq!(map.axis_len::<AxisY>(), 3);

    let map = VecMap::<u8>::new(vec![0; 12], (4, 3));
    assert_eq!(map.axis_len::<AxisX>(), 4);
    assert_eq!(map.axis_len::<AxisY>(), 3);
}

#[test]
fn arraymap_is_in_bounds() {
    let map = map_4x3();
    assert!(map.is_in_bounds::<AxisX>(0));
    assert!(map.is_in_bounds::<AxisX>(3));
    assert!(!map.is_in_bounds::<AxisX>(-1));
    assert!(!map.is_in_bounds::<AxisX>(4));

    let map = VecMap::<u8>::new(vec![0; 12], (4, 3));
    assert!(map.is_in_bounds::<AxisX>(0));
    assert!(map.is_in_bounds::<AxisX>(3));
    assert!(!map.is_in_bounds::<AxisX>(-1));
    assert!(!map.is_in_bounds::<AxisX>(4));
}

#[test]
fn arraymap_range_is_in_bounds() {
    let map = map_4x3();
    assert!(map.range_is_in_bounds::<AxisX>(0, -1..1));
    assert!(map.range_is_in_bounds::<AxisX>(3, 2..5));
    assert!(!map.range_is_in_bounds::<AxisX>(0, -2..-1));
    assert!(!map.range_is_in_bounds::<AxisX>(3, 3..5));

    let map = VecMap::<u8>::new(vec![0; 12], (4, 3));
    assert!(map.range_is_in_bounds::<AxisX>(0, -1..1));
    assert!(map.range_is_in_bounds::<AxisX>(3, 2..5));
    assert!(!map.range_is_in_bounds::<AxisX>(0, -2..-1));
    assert!(!map.range_is_in_bounds::<AxisX>(3, 3..5));
}

#[test]
fn arraymap_iter_row() {
    let map = map_4x3();
    assert_eq!(TileMapView::<AxisX>::view(&map, 0, 0..3), [0, 1, 2]);
    assert_eq!(TileMapView::<AxisX>::view(&map, 3, 0..3), [9, 10, 11]);

    let map = vec_4x3();
    assert_eq!(TileMapView::<AxisX>::view(&map, 0, 0..3), [0, 1, 2]);
    assert_eq!(TileMapView::<AxisX>::view(&map, 3, 0..3), [9, 10, 11]);
}

#[test]
fn arraymap_iter_col() {
    let map = map_4x3();
    assert_eq!(TileMapView::<AxisY>::view(&map, 0, 0..3), [0, 3, 6]);
    assert_eq!(TileMapView::<AxisY>::view(&map, 2, 1..4), [5, 8, 11]);

    let map = vec_4x3();
    assert_eq!(TileMapView::<AxisY>::view(&map, 0, 0..3), [0, 3, 6]);
    assert_eq!(TileMapView::<AxisY>::view(&map, 2, 1..4), [5, 8, 11]);
}

#[test]
fn tilemap_bounds() {
    let map = map_4x3();
    assert_eq!(map.size(), AxisVec::new(4, 3));
    assert_eq!(map.bound_index::<AxisX>(Endpoint::LOWER()), 0);
    assert_eq!(map.bound_index::<AxisX>(Endpoint::UPPER()), 3);
    assert_eq!(map.bound_index::<AxisY>(Endpoint::UPPER()), 2);
    assert_eq!(map.index_range::<AxisY>(), 0..3);
    assert_eq!(ArrayMap::<2, 2, 4, u8>::new([1, 2, 3, 4]).0, [1, 2, 3, 4]);
}

#[test]
fn iter_all_col() {
    let idx_0 = SliceIndex::<AxisY>::new_unchecked(0, -2..5, 3, Endpoint::LOWER());
    let idx_1 = SliceIndex::<AxisY>::new_unchecked(1, -2..5, 3, Endpoint::LOWER());
    let idx_2 = SliceIndex::<AxisY>::new_unchecked(2, -2..5, 3, Endpoint::LOWER());

    let c0 = TileRange::inspect(&solid_map(), &idx_0).iter_all();
    let c1 = TileRange::inspect(&solid_map(), &idx_1).iter_all();
    let c2 = TileRange::inspect(&solid_map(), &idx_2).iter_all();

    assert_eq!(c0, vec![(v(0, -2), false), (v(0, -1), false), (v(0, 0), true), (v(0, 1), false), (v(0, 2), true), (v(0, 3), false), (v(0, 4), false)]);
    assert_eq!(c1, vec![(v(1, -2), false), (v(1, -1), false), (v(1, 0), true), (v(1, 1), true), (v(1, 2), false), (v(1, 3), false), (v(1, 4), false)]);
    assert_eq!(c2, vec![(v(2, -2), false), (v(2, -1), false), (v(2, 0), true), (v(2, 1), false), (v(2, 2), false), (v(2, 3), false), (v(2, 4), false)]);
}

#[test]
fn iter_all_row() {
    let idx_0 = SliceIndex::<AxisX>::new_unchecked(0, -2..5, 3, Endpoint::LOWER());
    let idx_1 = SliceIndex::<AxisX>::new_unchecked(1, -2..5, 3, Endpoint::LOWER());
    let idx_2 = SliceIndex::<AxisX>::new_unchecked(2, -2..5, 3, Endpoint::LOWER());

    let r0 = TileRange::inspect(&solid_map(), &idx_0).iter_all();
    let r1 = TileRange::inspect(&solid_map(), &idx_1).iter_all();
    let r2 = TileRange::inspect(&solid_map(), &idx_2).iter_all();

    assert_eq!(r0, vec![(v(-2, 0), false), (v(-1, 0), false), (v(0, 0), true), (v(1, 0), true), (v(2, 0), true), (v(3, 0), false), (v(4, 0), false)]);
    assert_eq!(r1, vec![(v(-2, 1), false), (v(-1, 1), false), (v(0, 1), false), (v(1, 1), true), (v(2, 1), false), (v(3, 1), false), (v(4, 1), false)]);
    assert_eq!(r2, vec![(v(-2, 2), false), (v(-1, 2), false), (v(0, 2), true), (v(1, 2), false), (v(2, 2), false), (v(3, 2), false), (v(4, 2), false)]);
}

#[test]
fn iter_solid_col() {
    let idx_0 = SliceIndex::<AxisY>::new_unchecked(0, -2..5, 3, Endpoint::LOWER());
    let idx_1 = SliceIndex::<AxisY>::new_unchecked(1, -2..5, 3, Endpoint::LOWER());
    let idx_2 = SliceIndex::<AxisY>::new_unchecked(2, -2..5, 3, Endpoint::LOWER());

    let c0 = TileRange::inspect(&solid_map(), &idx_0).iter_solid();
    let c1 = TileRange::inspect(&solid_map(), &idx_1).iter_solid();
    let c2 = TileRange::inspect(&solid_map(), &idx_2).iter_solid();

    assert_eq!(c0, vec![v(0, 0), v(0, 2)]);
    assert_eq!(c1, vec![v(1, 0), v(1, 1)]);
    assert_eq!(c2, vec![v(2, 0)]);
}

#[test]
fn iter_solid_row() {
    let idx_0 = SliceIndex::<AxisX>::new_unchecked(0, -2..5, 3, Endpoint::LOWER());
    let idx_1 = SliceIndex::<AxisX>::new_unchecked(1, -2..5, 3, Endpoint::LOWER());
    let idx_2 = SliceIndex::<AxisX>::new_unchecked(2, -2..5, 3, Endpoint::LOWER());

    let r0 = TileRange::inspect(&solid_map(), &idx_0).iter_solid();
    let r1 = TileRange::inspect(&solid_map(), &idx_1).iter_solid();
    let r2 = TileRange::inspect(&solid_map(), &idx_2).iter_solid();

    assert_eq!(r0, vec![v(0, 0), v(1, 0), v(2, 0)]);
    assert_eq!(r1, vec![v(1, 1)]);
    assert_eq!(r2, vec![v(0, 2)]);
}

#[test]
fn tile_range_collided() {
    let idx = SliceIndex::<AxisX>::new_unchecked(1, -2..5, 3, Endpoint::LOWER());
    assert!(TileRange::inspect(&solid_map(), &idx).collided());
    let empty = TileRange::<AxisX>::new(0, 0..3);
    assert!(!empty.collided());
    assert_eq!(empty.iter_solid(), vec![]);
}

fn bits(ints: &[u8]) -> BitSeq {
    let bools: Vec<bool> = ints.iter().map(|i| *i != 0).collect();
    BitSeq::from_bools(&bools)
}

#[test]
fn bitmap_axis_size() {
    let map = BitMap::new(bits(&[0; 4 * 3]), (4, 3));
    assert_eq!(map.axis_len::<AxisX>(), 4);
    assert_eq!(map.axis_len::<AxisY>(), 3);
}

#[test]
fn view_row() {
    let map = BitMap::new(
        bits(&[
            1, 0, 0, 0, 0, //
            0, 1, 0, 0, 0, //
            0, 0, 1, 0, 0, //
            0, 0, 0, 1, 0, //
        ]),
        (4, 5),
    );

    assert_eq!(TileMapView::<AxisX>::view(&map, 0, 0..5), bits(&[1, 0, 0, 0, 0]).to_vec());
    assert_eq!(TileMapView::<AxisX>::view(&map, 1, 0..5), bits(&[0, 1, 0, 0, 0]).to_vec());
    assert_eq!(TileMapView::<AxisX>::view(&map, 2, 0..5), bits(&[0, 0, 1, 0, 0]).to_vec());
    assert_eq!(TileMapView::<AxisX>::view(&map, 3, 0..5), bits(&[0, 0, 0, 1, 0]).to_vec());
}

#[test]
fn view_col() {
    let map = BitMap::new(
        bits(&[
            1, 0, 0, 0, 0, //
            1, 1, 0, 0, 0, //
            0, 1, 1, 0, 0, //
            0, 0, 1, 1, 0, //
        ]),
        (4, 5),
    );

    assert_eq!(TileMapView::<AxisY>::view(&map, 0, 0..5), bits(&[1, 1, 0, 0]).to_vec());
    assert_eq!(TileMapView::<AxisY>::view(&map, 1, 0..5), bits(&[0, 1, 1, 0]).to_vec());
    assert_eq!(TileMapView::<AxisY>::view(&map, 2, 0..5), bits(&[0, 0, 1, 1]).to_vec());
    assert_eq!(TileMapView::<AxisY>::view(&map, 3, 0..5), bits(&[0, 0, 0, 1]).to_vec());
    assert_eq!(TileMapView::<AxisY>::view(&map, 4, 0..5), bits(&[0, 0, 0, 0]).to_vec());
}

const PACK_X: usize = 5;
const PACK_Y: usize = 5;
const PACK_LEN: usize = PACK_X * PACK_Y;
const PACK_BYTE_LEN: usize = 13;

fn packed_array() -> [u8; PACK_BYTE_LEN] {
    let mut array = [0u8; PACK_BYTE_LEN];
    array.subbyte_index_mut::<W4, Lsb, Lsb>(..PACK_LEN, (0..(PACK_X * PACK_Y) as u8).map(|int| int % 16));
    array
}

#[test]
fn packmap_axis_size() {
    let array = [0u8; 6];
    let map = PackMap::<W4, 4, 3>::new(&array);

    assert_eq!(map.axis_len::<AxisX>(), 4);
    assert_eq!(map.axis_len::<AxisY>(), 3);
}

#[test]
fn slice_row() {
    let array = packed_array();
    let map = PackMap::<W4, PACK_X, PACK_Y>::new(&array);

    assert_eq!(TileMapView::<AxisX>::view(&map, 0, 0..5), [0, 1, 2, 3, 4]);
    assert_eq!(TileMapView::<AxisX>::view(&map, 1, 0..5), [5, 6, 7, 8, 9]);
    assert_eq!(TileMapView::<AxisX>::view(&map, 2, 0..5), [10, 11, 12, 13, 14]);
    assert_eq!(TileMapView::<AxisX>::view(&map, 3, 0..5), [15, 0, 1, 2, 3]);
    assert_eq!(TileMapView::<AxisX>::view(&map, 4, 0..5), [4, 5, 6, 7, 8]);
}

#[test]
fn slice_col() {
    let array = packed_array();
    let map = PackMap::<W4, PACK_X, PACK_Y>::new(&array);

    assert_eq!(TileMapView::<AxisY>::view(&map, 0, 0..5), [0, 5, 10, 15, 4]);
    assert_eq!(TileMapView::<AxisY>::view(&map, 1, 0..5), [1, 6, 11, 0, 5]);
    assert_eq!(TileMapView::<AxisY>::view(&map, 2, 0..5), [2, 7, 12, 1, 6]);
    assert_eq!(TileMapView::<AxisY>::view(&map, 3, 0..5), [3, 8, 13, 2, 7]);
    assert_eq!(TileMapView::<AxisY>::view(&map, 4, 0..5), [4, 9, 14, 3, 8]);
}

#[test]
fn packmap_orders_and_widths() {
    let array = [0b_00_01_10_11u8, 0b_11_10_01_00];
    // Two-bit elements, least significant slot first.
    let lsb = PackMap::<W2, 2, 4, Lsb, Lsb>::new(&array);
    assert_eq!(TileMapView::<AxisX>::view(&lsb, 0, 0..4), [0b11, 0b10, 0b01, 0b00]);
    // Most significant slot first, element aligned to the most significant bits.
    let msb = PackMap::<W2, 2, 4, Msb, Msb>::new(&array);
    assert_eq!(TileMapView::<AxisX>::view(&msb, 0, 0..1), [0b00_000000]);
    assert_eq!(TileMapView::<AxisX>::view(&msb, 0, 1..2), [0b01_000000]);
    // Agrees with the crate's own indexing.
    for i in 0..8 {
        let row = i / 2;
        let col = i % 2;
        let map = PackMap::<W2, 2, 4, Msb, Lsb>::new(&array);
        let view = TileMapView::<AxisX>::view(&map, row, col..col + 1);
        assert_eq!(view[0], array.subbyte_index::<W2, Msb, Lsb>(row * 2 + col));
    }
    let mut four = [0u8; 2];
    four.subbyte_index_mut::<W4, Msb, Lsb>(..4, [1u8, 2, 3, 4]);
    let map = PackMap::<W4, 2, 2, Msb, Lsb>::new(&four);
    assert_eq!(TileMapView::<AxisY>::view(&map, 1, 0..2), [2, 4]);
}

#[test]
fn pack_byte_eq() {
    let b = PackByte::from(7u8);
    assert_eq!(b, PackByte(7));
    assert!(b == 7u8);
    assert_eq!(*b, 7);
}

#[test]
fn bitmap_col_past_last_row() {
    let map = BitMap::new(bits(&[1, 0, 1, 1, 0, 1]), (2, 3));
    assert_eq!(TileMapView::<AxisY>::view(&map, 2, 1..9), vec![true]);
    assert_eq!(TileMapView::<AxisY>::view(&map, 0, 3..9), Vec::<bool>::new());
    assert_eq!(TileMapView::<AxisY>::view(&map, 0, 0..2), vec![true, true]);
}
