use core::marker::PhantomData;
use core::ops::{Deref, Range};

use subbyte_index::{Lsb, Msb, SubByteIndex, W2, W4};

use vstd::prelude::*;
use vstd::std_specs::cmp::PartialEqSpecImpl;
use vstd::std_specs::convert::FromSpecImpl;

use crate::plane::axis::{AxisValue, AxisX, AxisY, DynAxis};
use crate::view::tilemap::{TileMap, TileMapView};

verus! {

/// The `subbyte_index` bit width of two bits.
#[verifier::external_type_specification]
#[verifier::external_body]
pub struct ExW2(W2);

/// The `subbyte_index` bit width of four bits.
#[verifier::external_type_specification]
#[verifier::external_body]
pub struct ExW4(W4);

/// The `subbyte_index` least significant bit first slot order.
#[verifier::external_type_specification]
#[verifier::external_body]
pub struct ExLsb(Lsb);

/// The `subbyte_index` most significant bit first slot order.
#[verifier::external_type_specification]
#[verifier::external_body]
pub struct ExMsb(Msb);

/// The element `index` of a byte sequence packed in slots of `width` bits: slot
/// `index % (8 / width)` of byte `index / (8 / width)`, the first slot being the least
/// significant bits where `array_msb` is false and the most significant bits otherwise. The
/// element is aligned to the least significant bits where `out_msb` is false and to the most
/// significant bits otherwise.
pub open spec fn spec_subbyte(bytes: Seq<u8>, index: int, width: nat, array_msb: bool, out_msb: bool) -> u8 {
    let n_slots = (8nat / width) as int;
    let slot = index % n_slots;
    let b = bytes[index / n_slots];
    let shift = if array_msb { 8 - (slot + 1) * width } else { slot * width };
    let lsb_mask: u8 = if width == 2 { 3 } else { 15 };
    let v: u8 = (b >> (shift as u8)) & lsb_mask;
    if out_msb {
        ((v as int) * (if width == 2 { 64int } else { 16int })) as u8
    } else {
        v
    }
}

/// `subbyte_index::<W2, Lsb, Lsb>`: the two-bit element `index`, least significant slot first,
/// aligned to the least significant bits. Panics where its byte is out of the slice.
#[verifier::external_body]
fn subbyte_w2_lsb_lsb(bytes: &[u8], index: usize) -> (r: u8)
    requires
        index / 4 < bytes@.len(),
    ensures
        r == spec_subbyte(bytes@, index as int, 2, false, false),
{
    bytes.subbyte_index::<W2, Lsb, Lsb>(index)
}

/// `subbyte_index::<W2, Lsb, Msb>`: the two-bit element `index`, least significant slot first,
/// aligned to the most significant bits. Panics where its byte is out of the slice.
#[verifier::external_body]
fn subbyte_w2_lsb_msb(bytes: &[u8], index: usize) -> (r: u8)
    requires
        index / 4 < bytes@.len(),
    ensures
        r == spec_subbyte(bytes@, index as int, 2, false, true),
{
    bytes.subbyte_index::<W2, Lsb, Msb>(index)
}

/// `subbyte_index::<W2, Msb, Lsb>`: the two-bit element `index`, most significant slot first,
/// aligned to the least significant bits. Panics where its byte is out of the slice.
#[verifier::external_body]
fn subbyte_w2_msb_lsb(bytes: &[u8], index: usize) -> (r: u8)
    requires
        index / 4 < bytes@.len(),
    ensures
        r == spec_subbyte(bytes@, index as int, 2, true, false),
{
    bytes.subbyte_index::<W2, Msb, Lsb>(index)
}

/// `subbyte_index::<W2, Msb, Msb>`: the two-bit element `index`, most significant slot first,
/// aligned to the most significant bits. Panics where its byte is out of the slice.
#[verifier::external_body]
fn subbyte_w2_msb_msb(bytes: &[u8], index: usize) -> (r: u8)
    requires
        index / 4 < bytes@.len(),
    ensures
        r == spec_subbyte(bytes@, index as int, 2, true, true),
{
    bytes.subbyte_index::<W2, Msb, Msb>(index)
}

/// `subbyte_index::<W4, Lsb, Lsb>`: the four-bit element `index`, least significant slot first,
/// aligned to the least significant bits. Panics where its byte is out of the slice.
#[verifier::external_body]
fn subbyte_w4_lsb_lsb(bytes: &[u8], index: usize) -> (r: u8)
    requires
        index / 2 < bytes@.len(),
    ensures
        r == spec_subbyte(bytes@, index as int, 4, false, false),
{
    bytes.subbyte_index::<W4, Lsb, Lsb>(index)
}

/// `subbyte_index::<W4, Lsb, Msb>`: the four-bit element `index`, least significant slot first,
/// aligned to the most significant bits. Panics where its byte is out of the slice.
#[verifier::external_body]
fn subbyte_w4_lsb_msb(bytes: &[u8], index: usize) -> (r: u8)
    requires
        index / 2 < bytes@.len(),
    ensures
        r == spec_subbyte(bytes@, index as int, 4, false, true),
{
    bytes.subbyte_index::<W4, Lsb, Msb>(index)
}

/// `subbyte_index::<W4, Msb, Lsb>`: the four-bit element `index`, most significant slot first,
/// aligned to the least significant bits. Panics where its byte is out of the slice.
#[verifier::external_body]
fn subbyte_w4_msb_lsb(bytes: &[u8], index: usize) -> (r: u8)
    requires
        index / 2 < bytes@.len(),
    ensures
        r == spec_subbyte(bytes@, index as int, 4, true, false),
{
    bytes.subbyte_index::<W4, Msb, Lsb>(index)
}

/// `subbyte_index::<W4, Msb, Msb>`: the four-bit element `index`, most significant slot first,
/// aligned to the most significant bits. Panics where its byte is out of the slice.
#[verifier::external_body]
fn subbyte_w4_msb_msb(bytes: &[u8], index: usize) -> (r: u8)
    requires
        index / 2 < bytes@.len(),
    ensures
        r == spec_subbyte(bytes@, index as int, 4, true, true),
{
    bytes.subbyte_index::<W4, Msb, Msb>(index)
}

/// # PackWidth
///
/// The bit width of a packed tile: the `subbyte_index` widths [`W2`] and [`W4`].
pub trait PackWidth {
    /// The number of bits of an element.
    spec fn spec_width() -> nat;

    /// Return the number of bits of an element.
    fn width() -> (r: usize)
        ensures
            r == Self::spec_width(),
            r == 2 || r == 4,
    ;
}

impl PackWidth for W2 {
    open spec fn spec_width() -> nat {
        2
    }

    fn width() -> (r: usize) {
        2
    }
}

impl PackWidth for W4 {
    open spec fn spec_width() -> nat {
        4
    }

    fn width() -> (r: usize) {
        4
    }
}

/// # PackOrder
///
/// The slot order of packed tiles in a byte: the `subbyte_index` orders [`Lsb`] and [`Msb`].
pub trait PackOrder {
    /// Whether the first slot is the most significant bits.
    spec fn spec_msb() -> bool;

    /// Return whether the first slot is the most significant bits.
    fn is_msb() -> (r: bool)
        ensures
            r == Self::spec_msb(),
    ;
}

impl PackOrder for Lsb {
    open spec fn spec_msb() -> bool {
        false
    }

    fn is_msb() -> (r: bool) {
        false
    }
}

impl PackOrder for Msb {
    open spec fn spec_msb() -> bool {
        true
    }

    fn is_msb() -> (r: bool) {
        true
    }
}

/// The element `index` of `bytes` for the width `W`, array order `AOrd` and element order
/// `ElOrd`, read with `subbyte_index`.
fn subbyte<W: PackWidth, AOrd: PackOrder, ElOrd: PackOrder>(bytes: &[u8], index: usize) -> (r: u8)
    requires
        index as int / ((8nat / W::spec_width()) as int) < bytes@.len(),
    ensures
        r == spec_subbyte(bytes@, index as int, W::spec_width(), AOrd::spec_msb(), ElOrd::spec_msb()),
{
    let w = W::width();
    let am = AOrd::is_msb();
    let om = ElOrd::is_msb();
    assert(8nat / 2nat == 4 && 8nat / 4nat == 2);
    if w == 2 {
        if !am && !om {
            subbyte_w2_lsb_lsb(bytes, index)
        } else if !am {
            subbyte_w2_lsb_msb(bytes, index)
        } else if !om {
            subbyte_w2_msb_lsb(bytes, index)
        } else {
            subbyte_w2_msb_msb(bytes, index)
        }
    } else {
        if !am && !om {
            subbyte_w4_lsb_lsb(bytes, index)
        } else if !am {
            subbyte_w4_lsb_msb(bytes, index)
        } else if !om {
            subbyte_w4_msb_lsb(bytes, index)
        } else {
            subbyte_w4_msb_msb(bytes, index)
        }
    }
}

/// # PackMap
///
/// A tilemap where each tile is packed in `W` bits of a byte slice: `X` rows and `Y` columns,
/// the element of row `x` and column `y` being packed element `x * X + y`. The array order
/// `AOrd` and element order `ElOrd` are those of `subbyte_index`.
pub struct PackMap<'a, W, const X: usize, const Y: usize, AOrd = Lsb, ElOrd = Lsb> {
    /// The packed array.
    pub array: &'a [u8],
    /// Array slot order.
    pub _arr: PhantomData<AOrd>,
    /// Element width and order.
    pub _el: PhantomData<(W, ElOrd)>,
}

impl<'a, W: PackWidth, const X: usize, const Y: usize, AOrd, ElOrd> PackMap<'a, W, X, Y, AOrd, ElOrd> {
    /// Create a new `PackMap` from the given slice.
    pub fn new(array: &'a [u8]) -> (r: Self)
        ensures
            r.array@ == array@,
    {
        PackMap { array, _arr: PhantomData, _el: PhantomData }
    }
}

impl<'a, W: PackWidth, const X: usize, const Y: usize, AOrd: PackOrder, ElOrd: PackOrder> TileMap for PackMap<
    'a,
    W,
    X,
    Y,
    AOrd,
    ElOrd,
> {
    type El = u8;

    open spec fn spec_axis_len(&self, a: DynAxis) -> usize {
        match a {
            DynAxis::X => X,
            DynAxis::Y => Y,
        }
    }

    open spec fn spec_tile(&self, x: int, y: int) -> u8 {
        spec_subbyte(self.array@, x * X + y, W::spec_width(), AOrd::spec_msb(), ElOrd::spec_msb())
    }

    open spec fn spec_wf(&self) -> bool {
        X == 0 || Y == 0 || ((X - 1) * X + Y <= self.array@.len() * (8nat / W::spec_width()) && (X
            - 1) * X + Y <= usize::MAX)
    }

    fn axis_len<A: AxisValue>(&self) -> (r: usize) {
        match A::into_dyn() {
            DynAxis::X => X,
            DynAxis::Y => Y,
        }
    }
}

/// A packed element of index `x * X + y`, for `x < X` and `y < Y`, is within an array that the
/// map admits.
proof fn lemma_packed_in_bounds(x: int, y: int, xx: int, yy: int, len: int, n: int)
    requires
        0 <= x < xx,
        0 <= y < yy,
        n == 2 || n == 4,
        (xx - 1) * xx + yy <= len * n,
    ensures
        0 <= x * xx + y < (xx - 1) * xx + yy,
        (x * xx + y) / n < len,
{
    assert(x * xx <= (xx - 1) * xx) by (nonlinear_arith)
        requires
            0 <= x < xx,
    ;
    assert(0 <= x * xx) by (nonlinear_arith)
        requires
            0 <= x,
            0 < xx,
    ;
    assert((x * xx + y) / n < len) by (nonlinear_arith)
        requires
            0 <= x * xx + y < len * n,
            n == 2 || n == 4,
    ;
}

impl<'a, W: PackWidth, const X: usize, const Y: usize, AOrd: PackOrder, ElOrd: PackOrder> TileMapView<
    AxisX,
> for PackMap<'a, W, X, Y, AOrd, ElOrd> {
    open spec fn spec_view_end_lmt(&self) -> nat {
        self.spec_axis_len(DynAxis::Y) as nat
    }

    proof fn lemma_view_end_lmt(&self) {
    }

    /// The elements `range` of row `idx`.
    fn view(&self, idx: usize, range: Range<usize>) -> (r: Vec<u8>) {
        let w = W::width();
        let mut r: Vec<u8> = Vec::new();
        let mut i = range.start;
        while i < range.end
            invariant
                self.spec_wf(),
                w == W::spec_width(),
                w == 2 || w == 4,
                idx < X,
                range.start <= i <= range.end <= Y,
                r@.len() == i - range.start,
                forall|k: int|
                    0 <= k < r@.len() ==> r@[k] == self.spec_tile(idx as int, range.start + k),
            decreases range.end - i,
        {
            proof {
                assert(8nat / 2nat == 4 && 8nat / 4nat == 2);
                lemma_packed_in_bounds(
                    idx as int,
                    i as int,
                    X as int,
                    Y as int,
                    self.array@.len() as int,
                    (8nat / W::spec_width()) as int,
                );
            }
            r.push(subbyte::<W, AOrd, ElOrd>(self.array, idx * X + i));
            i = i + 1;
        }
        r
    }
}

impl<'a, W: PackWidth, const X: usize, const Y: usize, AOrd: PackOrder, ElOrd: PackOrder> TileMapView<
    AxisY,
> for PackMap<'a, W, X, Y, AOrd, ElOrd> {
    open spec fn spec_view_end_lmt(&self) -> nat {
        self.spec_axis_len(DynAxis::X) as nat
    }

    proof fn lemma_view_end_lmt(&self) {
    }

    /// The elements `range` of column `idx`.
    fn view(&self, idx: usize, range: Range<usize>) -> (r: Vec<u8>) {
        let w = W::width();
        let mut r: Vec<u8> = Vec::new();
        let mut i = range.start;
        while i < range.end
            invariant
                self.spec_wf(),
                w == W::spec_width(),
                w == 2 || w == 4,
                idx < Y,
                range.start <= i <= range.end <= X,
                r@.len() == i - range.start,
                forall|k: int|
                    0 <= k < r@.len() ==> r@[k] == self.spec_tile(range.start + k, idx as int),
            decreases range.end - i,
        {
            proof {
                assert(8nat / 2nat == 4 && 8nat / 4nat == 2);
                lemma_packed_in_bounds(
                    i as int,
                    idx as int,
                    X as int,
                    Y as int,
                    self.array@.len() as int,
                    (8nat / W::spec_width()) as int,
                );
            }
            r.push(subbyte::<W, AOrd, ElOrd>(self.array, i * X + idx));
            i = i + 1;
        }
        r
    }
}

/// # PackByte
///
/// A packed element, dereferencing to its `u8` value.
#[derive(Debug, Copy, Clone, Eq, PartialOrd, Ord)]
pub struct PackByte(pub u8);

impl PartialEq<PackByte> for PackByte {
    fn eq(&self, other: &PackByte) -> (r: bool) {
        self.0 == other.0
    }
}

impl PartialEqSpecImpl<PackByte> for PackByte {
    open spec fn obeys_eq_spec() -> bool {
        true
    }

    open spec fn eq_spec(&self, other: &PackByte) -> bool {
        self.0 == other.0
    }
}

impl PartialEq<u8> for PackByte {
    fn eq(&self, other: &u8) -> (r: bool) {
        self.0 == *other
    }
}

impl PartialEqSpecImpl<u8> for PackByte {
    open spec fn obeys_eq_spec() -> bool {
        true
    }

    open spec fn eq_spec(&self, other: &u8) -> bool {
        self.0 == *other
    }
}

impl From<u8> for PackByte {
    fn from(value: u8) -> (r: Self) {
        PackByte(value)
    }
}

impl FromSpecImpl<u8> for PackByte {
    open spec fn obeys_from_spec() -> bool {
        true
    }

    open spec fn from_spec(value: u8) -> Self {
        PackByte(value)
    }
}

impl Deref for PackByte {
    type Target = u8;

    fn deref(&self) -> (r: &u8)
        ensures
            *r == self.0,
    {
        &self.0
    }
}

} // verus!
