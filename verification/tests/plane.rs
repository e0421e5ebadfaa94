use tilebound::plane::axis::{AxisX, AxisY, DynAxis};
use tilebound::plane::axis_mask::AxisMask;
use tilebound::plane::axis_vec::AxisVec;
use tilebound::plane::endpoint::{Endpoint, EndpointBound};
use tilebound::plane::endpoint_pair::EndpointPair;
use tilebound::plane::endpoint_range::EndpointRange;

#[test]
fn clear_end() {
    let mut mask_br = AxisMask::ALL();
    mask_br.clear_end::<AxisX>(Endpoint::LOWER());
    mask_br.clear_end::<AxisY>(Endpoint::LOWER());
    let mut mask_tl = AxisMask::ALL();
    mask_tl.clear_end::<AxisX>(Endpoint::UPPER());
    mask_tl.clear_end::<AxisY>(Endpoint::UPPER());

    assert_eq!(mask_br, AxisMask::BOTTOM_RIGHT());
    assert_eq!(mask_tl, AxisMask::TOP_LEFT());
}

#[test]
fn clear_axis() {
    let mut mask_x = AxisMask::ALL();
    mask_x.clear_axis::<AxisY>();
    let mut mask_y = AxisMask::ALL();
    mask_y.clear_axis::<AxisX>();

    assert_eq!(mask_x, AxisMask::X());
    assert_eq!(mask_y, AxisMask::Y());
}

#[test]
fn axis_mask_transpose() {
    let mask_x = AxisMask::X();
    let mask_y = AxisMask::Y();
    let mask_l = AxisMask::LEFT();
    let mask_r = AxisMask::RIGHT();
    let mask_t = AxisMask::TOP();
    let mask_b = AxisMask::BOTTOM();

    assert_eq!(mask_x.transpose(), AxisMask::Y());
    assert_eq!(mask_y.transpose(), AxisMask::X());
    assert_eq!(mask_l.transpose(), AxisMask::TOP());
    assert_eq!(mask_r.transpose(), AxisMask::BOTTOM());
    assert_eq!(mask_t.transpose(), AxisMask::LEFT());
    assert_eq!(mask_b.transpose(), AxisMask::RIGHT());
}

#[test]
fn intersects() {
    let a = -4..-3;
    let b = -3..-2;
    let c = -3..3;
    let d = 2..4;
    let e = 4..5;

    assert!(!a.intersects(&b));
    assert!(b.intersects(&c));
    assert!(c.intersects(&d));
    assert!(!d.intersects(&e));

    assert_eq!(a.intersects(&b), b.intersects(&a));
    assert_eq!(a.intersects(&c), c.intersects(&a));
    assert_eq!(a.intersects(&d), d.intersects(&a));
    assert_eq!(b.intersects(&c), c.intersects(&b));
    assert_eq!(b.intersects(&d), d.intersects(&b));
    assert_eq!(c.intersects(&d), d.intersects(&c));
}

#[test]
fn axis_mask_transpose_twice_is_identity() {
    for bits in 0u8..=255 {
        let m = AxisMask::from_bits(bits);
        assert_eq!(m.transpose().transpose().0, bits & 15);
    }
}

#[test]
fn axis_mask_set_then_query() {
    let mut m = AxisMask::NONE();
    m.set_end::<AxisX>(Endpoint::RIGHT());
    assert!(m.end_is_set::<AxisX>(Endpoint::RIGHT()));
    assert!(!m.end_is_set::<AxisX>(Endpoint::LEFT()));
    assert!(m.right());
    assert!(!m.left());
    assert!(m.any());
    assert!(!m.all());
    assert!(m.any_on_axis::<AxisX>());
    assert!(!m.all_on_axis::<AxisX>());
    assert!(!m.any_on_axis::<AxisY>());
    assert_eq!(m.first_end::<AxisX>(), Some(Endpoint::RIGHT()));
    assert_eq!(m.first_end::<AxisY>(), None);
    m.clear_end::<AxisX>(Endpoint::RIGHT());
    assert!(m.none());
}

#[test]
fn axis_mask_from_end_and_axis() {
    assert_eq!(AxisMask::from_end::<AxisX>(Endpoint::LEFT()), AxisMask::LEFT());
    assert_eq!(AxisMask::from_end::<AxisY>(Endpoint::BOTTOM()), AxisMask::BOTTOM());
    assert_eq!(AxisMask::from_axis::<AxisX>(), AxisMask::X());
    assert_eq!(AxisMask::from_dyn_axis(DynAxis::Y), AxisMask::Y());
    assert_eq!(AxisMask::ALL().isolate_axis::<AxisY>(), AxisMask::Y());
    let mut all = AxisMask::ALL();
    all.clear();
    assert_eq!(all, AxisMask::NONE());
}

#[test]
fn endpoint_bound_order() {
    let lo = EndpointBound::Lower;
    let up = EndpointBound::Upper;
    assert!(up.gt(3, 2));
    assert!(!up.gt(2, 3));
    assert!(lo.gt(2, 3));
    assert!(lo.gte(3, 3));
    assert_eq!(EndpointBound::min(&lo, 2, 3), 3);
    assert_eq!(EndpointBound::min(&up, 2, 3), 2);
    assert_eq!(EndpointBound::max(&lo, 2, 3), 2);
    assert_eq!(EndpointBound::max(&up, 2, 3), 3);
    assert_eq!(lo.incr(5), 4);
    assert_eq!(up.incr(5), 6);
    assert_eq!(lo.decr(5), 6);
    assert_eq!(up.decr(5), 4);
    assert_eq!(lo.incr_n(5, 3), 2);
    assert_eq!(up.decr_n(5, 3), 2);
    assert_eq!(lo.decr_n(5.0f32, 1.5), 6.5);
    assert_eq!(lo.invert(), up);
    assert_eq!(up.invert().invert(), up);
    assert!(lo.is_lower());
    assert!(up.is_upper());
}

#[test]
fn endpoint_from_cmp() {
    assert_eq!(Endpoint::<AxisX>::from_cmp(1, 2), Some(Endpoint::LOWER()));
    assert_eq!(Endpoint::<AxisX>::from_cmp(3, 2), Some(Endpoint::UPPER()));
    assert_eq!(Endpoint::<AxisX>::from_cmp(2, 2), None);
    assert_eq!(Endpoint::<AxisY>::from_cmp_unchecked(1, 2), Endpoint::TOP());
    assert_eq!(Endpoint::<AxisX>::LEFT().invert(), Endpoint::RIGHT());
    assert_eq!(Endpoint::<AxisY>::TOP().into_axismask(), AxisMask::TOP());
}

#[test]
fn range_incr_decr() {
    let mut r = 2..5;
    r.incr::<AxisX>(Endpoint::UPPER());
    assert_eq!(r, 2..6);
    r.incr::<AxisX>(Endpoint::LOWER());
    assert_eq!(r, 1..6);
    r.decr::<AxisX>(Endpoint::LOWER());
    assert_eq!(r, 2..6);
    r.decr::<AxisX>(Endpoint::UPPER());
    assert_eq!(r, 2..5);
}

#[test]
fn range_endpoints() {
    let a = 0..4;
    let b = 1..4;
    assert_eq!(a.endpoint_diff::<AxisX>(&b), Some(Endpoint::UPPER()));
    assert_eq!(a.endpoint_diff::<AxisX>(&(0..3)), Some(Endpoint::LOWER()));
    assert_eq!(a.greater_endpoint::<AxisX>(&b), Some(Endpoint::LOWER()));
    assert_eq!(b.lesser_endpoint::<AxisX>(&a), Some(Endpoint::LOWER()));
    assert_eq!(a.endpoint_diff::<AxisX>(&a), None);
    assert_eq!(<std::ops::Range<i32> as EndpointRange<i32>>::new_mapped(1, 3, Endpoint::<AxisX>::LOWER()), 1..3);
    assert_eq!(<std::ops::Range<i32> as EndpointRange<i32>>::new_mapped_incl(3, 1, Endpoint::<AxisX>::UPPER()), 1..4);
}

#[test]
fn axis_vec_access() {
    let mut v = AxisVec::new(3, 7);
    assert_eq!(v.get::<AxisX>(), 3);
    assert_eq!(v.get::<AxisY>(), 7);
    assert_eq!(AxisVec::new_mapped::<AxisY>(1, 2), AxisVec::new(2, 1));
    *v.get_mut::<AxisY>() = 9;
    assert_eq!(v, AxisVec::new(3, 9));
    assert_eq!(v.map_axis::<AxisX, _>(|x| x + 1), AxisVec::new(4, 9));
    assert_eq!(v.sum(), 12);
    assert_eq!(v.product(), 27);
    assert_eq!(v.split_axis::<AxisY>(), (9, 3));
    assert_eq!(AxisVec::from((1, 2)), AxisVec::new(1, 2));
    assert_eq!(AxisVec::from([1, 2]), AxisVec::new(1, 2));
    assert!(AxisVec::new(0i32, 0).are_zero());
    assert!(!AxisVec::new(0i32, 1).are_zero());
}

#[test]
fn endpoint_pair_access() {
    let p = EndpointPair::<AxisX, i32>::new(1, 2);
    assert_eq!(p.get(Endpoint::LOWER()), 1);
    assert_eq!(p.get(Endpoint::UPPER()), 2);
    assert_eq!(EndpointPair::<AxisX, i32>::new_mapped(1, 2, Endpoint::UPPER()), EndpointPair::new(2, 1));
    assert_eq!(p.sum(), 3);
    assert_eq!(EndpointPair::<AxisX, i32>::from((1, 2)), p);
}

#[test]
fn all_on_axis_of_full_mask() {
    assert!(AxisMask::ALL().all_on_axis::<AxisX>());
    assert!(AxisMask::ALL().all_on_axis::<AxisY>());
    assert!(AxisMask::X().all_on_axis::<AxisX>());
    assert!(!AxisMask::X().all_on_axis::<AxisY>());
    assert!(!AxisMask::LEFT().all_on_axis::<AxisX>());
}

#[test]
fn endpoint_of_second_value() {
    assert_eq!(Endpoint::<AxisX>::from_partial_cmp_unchecked(1, 2), Endpoint::UPPER());
    assert_eq!(Endpoint::<AxisX>::from_partial_cmp_unchecked(2, 1), Endpoint::LOWER());
    assert_eq!(Endpoint::<AxisX>::from_partial_cmp_unchecked(1.0f32, 2.0f32), Endpoint::UPPER());
    assert_eq!(Endpoint::<AxisX>::from_partial_cmp(1, 2), Some(Endpoint::LOWER()));
}
