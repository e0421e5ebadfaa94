//! The bit-vector storage of tile collision ranges: the `bitvec` crate's `BitVec`, with the
//! calls that the ranges make on it.
use bitvec::order::Lsb0;
use bitvec::vec::BitVec;
use bitvec::view::BitView;
use bitvec::field::BitField;

use vstd::prelude::*;

verus! {

/// A bit-vector: the `bitvec` crate's `BitVec` (of `usize` elements, least significant bit
/// first).
#[verifier::external_body]
#[derive(Debug, PartialEq, Eq)]
pub struct BitSeq {
    bits: BitVec,
}

/// The bits that a bit-vector holds, in index order.
pub uninterp spec fn bitseq_bits(v: BitSeq) -> Seq<bool>;

impl Clone for BitSeq {
    /// `BitVec::clone`: a bit-vector of the same bits.
    #[verifier::external_body]
    fn clone(&self) -> (r: Self)
        ensures
            bitseq_bits(r) == bitseq_bits(*self),
    {
        BitSeq { bits: self.bits.clone() }
    }
}

/// The most bits that a `BitVec` can hold (`BitSlice::MAX_BITS`).
pub open spec fn spec_max_bits() -> nat {
    (usize::MAX >> 3u8) as nat
}

/// `BitVec::repeat`: a bit-vector of `len` copies of `bit`. It panics where `len` exceeds
/// the most bits that a bit-vector can hold.
#[verifier::external_body]
pub(crate) fn bv_repeat(bit: bool, len: usize) -> (r: BitSeq)
    requires
        len <= spec_max_bits(),
    ensures
        bitseq_bits(r) == Seq::new(len as nat, |_i: int| bit),
{
    BitSeq { bits: BitVec::repeat(bit, len) }
}

/// `BitVec::with_capacity`: an empty bit-vector. It panics where `capacity` exceeds the most
/// bits that a bit-vector can hold.
#[verifier::external_body]
pub(crate) fn bv_with_capacity(capacity: usize) -> (r: BitSeq)
    requires
        capacity <= spec_max_bits(),
    ensures
        bitseq_bits(r) == Seq::<bool>::empty(),
{
    BitSeq { bits: BitVec::with_capacity(capacity) }
}

/// `BitSlice::len`: the number of bits held.
#[verifier::external_body]
pub(crate) fn bv_len(v: &BitSeq) -> (r: usize)
    ensures
        r == bitseq_bits(*v).len(),
{
    v.bits.len()
}

/// `BitSlice` indexing: the bit at `index`, which panics out of bounds.
#[verifier::external_body]
pub(crate) fn bv_get(v: &BitSeq, index: usize) -> (r: bool)
    requires
        index < bitseq_bits(*v).len(),
    ensures
        r == bitseq_bits(*v)[index as int],
{
    v.bits[index]
}

/// `BitSlice::set`: write the bit at `index`, which panics out of bounds.
#[verifier::external_body]
pub(crate) fn bv_set(v: &mut BitSeq, index: usize, value: bool)
    requires
        index < bitseq_bits(*old(v)).len(),
    ensures
        bitseq_bits(*final(v)) == bitseq_bits(*old(v)).update(index as int, value),
{
    v.bits.set(index, value)
}

/// `BitVec::push`: append a bit. It panics where the length would exceed the most bits that a
/// bit-vector can hold.
#[verifier::external_body]
pub(crate) fn bv_push(v: &mut BitSeq, value: bool)
    requires
        bitseq_bits(*old(v)).len() < spec_max_bits(),
    ensures
        bitseq_bits(*final(v)) == bitseq_bits(*old(v)).push(value),
{
    v.bits.push(value)
}

/// `BitSlice::any` on the sub-slice `start..end`: whether any bit of it is set. Indexing
/// panics on a range out of bounds.
#[verifier::external_body]
pub(crate) fn bv_any_in(v: &BitSeq, start: usize, end: usize) -> (r: bool)
    requires
        start <= end <= bitseq_bits(*v).len(),
    ensures
        r == (exists|k: int| start <= k < end && bitseq_bits(*v)[k]),
{
    v.bits[start..end].any()
}

/// `BitSlice::all`: whether every bit is set (`true` for an empty bit-vector).
#[verifier::external_body]
pub(crate) fn bv_all(v: &BitSeq) -> (r: bool)
    ensures
        r == forall|k: int| 0 <= k < bitseq_bits(*v).len() ==> bitseq_bits(*v)[k],
{
    v.bits.all()
}

/// The bit `k` of a byte.
pub open spec fn spec_byte_bit(b: u8, k: int) -> bool {
    (b >> (k as u8)) & 1u8 == 1u8
}

/// `|=` of the bits of a byte (least significant first, `u8::view_bits::<Lsb0>`) into the
/// sub-slice `index..`: bit `k` of the byte is or-ed into bit `index + k` where both exist.
/// Indexing panics where `index` exceeds the length.
#[verifier::external_body]
pub(crate) fn bv_or_byte(v: &mut BitSeq, index: usize, byte: u8)
    requires
        index <= bitseq_bits(*old(v)).len(),
    ensures
        bitseq_bits(*final(v)).len() == bitseq_bits(*old(v)).len(),
        forall|j: int|
            0 <= j < bitseq_bits(*old(v)).len() ==> #[trigger] bitseq_bits(*final(v))[j] == (if index
                <= j < index + 8 {
                bitseq_bits(*old(v))[j] || spec_byte_bit(byte, j - index)
            } else {
                bitseq_bits(*old(v))[j]
            }),
{
    v.bits[index..] |= byte.view_bits::<Lsb0>();
}

/// `BitField::load::<u8>` on the two bits at the even index `index`: the first bit is the
/// least significant. Indexing panics out of bounds.
#[verifier::external_body]
pub(crate) fn bv_load_pair(v: &BitSeq, index: usize) -> (r: u8)
    requires
        index % 2 == 0,
        index + 2 <= bitseq_bits(*v).len(),
    ensures
        r == (if bitseq_bits(*v)[index as int] { 1u8 } else { 0u8 }) + (if bitseq_bits(*v)[index + 1] {
            2u8
        } else {
            0u8
        }),
{
    v.bits[index..index + 2].load::<u8>()
}

impl BitSeq {
    /// Create a bit-vector of the given bits.
    pub fn from_bools(bools: &[bool]) -> (r: BitSeq)
        requires
            bools@.len() <= spec_max_bits(),
        ensures
            bitseq_bits(r) == bools@,
    {
        let mut r = bv_with_capacity(bools.len());
        let mut i: usize = 0;
        while i < bools.len()
            invariant
                i <= bools@.len() <= spec_max_bits(),
                bitseq_bits(r) == bools@.subrange(0, i as int),
            decreases bools@.len() - i,
        {
            bv_push(&mut r, bools[i]);
            i = i + 1;
            assert(bools@.subrange(0, i as int) == bools@.subrange(0, (i - 1) as int).push(
                bools@[i - 1],
            ));
        }
        assert(bools@.subrange(0, bools@.len() as int) == bools@);
        r
    }

    /// Return the bits as a vector.
    pub fn to_vec(&self) -> (r: Vec<bool>)
        ensures
            r@ == bitseq_bits(*self),
    {
        let n = bv_len(self);
        let mut r: Vec<bool> = Vec::new();
        let mut i: usize = 0;
        while i < n
            invariant
                i <= n,
                n == bitseq_bits(*self).len(),
                r@ == bitseq_bits(*self).subrange(0, i as int),
            decreases n - i,
        {
            r.push(bv_get(self, i));
            i = i + 1;
            assert(bitseq_bits(*self).subrange(0, i as int) == bitseq_bits(*self).subrange(
                0,
                (i - 1) as int,
            ).push(bitseq_bits(*self)[i - 1]));
        }
        assert(bitseq_bits(*self).subrange(0, n as int) == bitseq_bits(*self));
        r
    }

    /// Return the number of bits.
    pub fn len(&self) -> (r: usize)
        ensures
            r == bitseq_bits(*self).len(),
    {
        bv_len(self)
    }
}

} // verus!
