use core::ops::Range;

use vstd::prelude::*;
use vstd::std_specs::convert::IntoSpec;

use crate::bitseq::{bitseq_bits, bv_get, bv_len, BitSeq};
use crate::plane::axis::{AxisValue, AxisX, AxisY, DynAxis};
use crate::plane::axis_vec::AxisVec;
use crate::view::arraymap::lemma_row_in_bounds;
use crate::view::tilemap::{TileMap, TileMapView};

verus! {

/// # BitMap
///
/// A tilemap where each colliding tile is a bit, in **row major** order: `size.x` rows of
/// `size.y` bits. The storage is a bit-vector; its length is only checked by [`BitMap::new`].
pub struct BitMap {
    /// The bit storage.
    pub store: BitSeq,
    /// The number of rows and columns (axis *x* and *y* respectively).
    pub size: AxisVec<usize>,
}

impl BitMap {
    /// Create a new `BitMap` from a bit-vector holding exactly `size.x * size.y` bits.
    pub fn new<D: Into<AxisVec<usize>>>(store: BitSeq, size: D) -> (r: Self)
        requires
            D::obeys_into_spec(),
            bitseq_bits(store).len() == size.into_spec().x * size.into_spec().y,
        ensures
            r.store == store,
            r.size == size.into_spec(),
    {
        let size: AxisVec<usize> = size.into();
        BitMap { store, size }
    }
}

impl TileMap for BitMap {
    type El = bool;

    open spec fn spec_axis_len(&self, a: DynAxis) -> usize {
        self.size.spec_get(a)
    }

    open spec fn spec_tile(&self, x: int, y: int) -> bool {
        bitseq_bits(self.store)[x * self.size.y + y]
    }

    open spec fn spec_wf(&self) -> bool {
        bitseq_bits(self.store).len() == self.size.x * self.size.y
    }

    fn axis_len<A: AxisValue>(&self) -> (r: usize) {
        match A::into_dyn() {
            DynAxis::X => self.size.x,
            DynAxis::Y => self.size.y,
        }
    }
}

impl TileMapView<AxisX> for BitMap {
    open spec fn spec_view_end_lmt(&self) -> nat {
        self.spec_axis_len(DynAxis::Y) as nat
    }

    proof fn lemma_view_end_lmt(&self) {
    }

    /// The bits `range` of row `idx`.
    fn view(&self, idx: usize, range: Range<usize>) -> (r: Vec<bool>) {
        let n = bv_len(&self.store);
        proof {
            lemma_row_in_bounds(idx, self.size.y, self.size.x, range.end);
        }
        let start = idx * self.size.y + range.start;
        let len = range.end - range.start;
        let mut r: Vec<bool> = Vec::new();
        let mut k: usize = 0;
        while k < len
            invariant
                k <= len,
                len == range.end - range.start,
                start == idx * self.size.y + range.start,
                start + len <= bitseq_bits(self.store).len(),
                n == bitseq_bits(self.store).len(),
                r@.len() == k,
                forall|j: int| 0 <= j < k ==> r@[j] == bitseq_bits(self.store)[start + j],
            decreases len - k,
        {
            r.push(bv_get(&self.store, start + k));
            k = k + 1;
        }
        proof {
            assert forall|j: int| 0 <= j < r@.len() implies r@[j] == self.spec_tile(
                idx as int,
                range.start + j,
            ) by {
                assert(idx * self.size.y + (range.start + j) == start + j);
            }
        }
        r
    }
}

impl TileMapView<AxisY> for BitMap {
    open spec fn spec_view_end_lmt(&self) -> nat {
        usize::MAX as nat
    }

    proof fn lemma_view_end_lmt(&self) {
    }

    /// The bits `range` of column `idx`, up to the last row that the storage holds.
    fn view(&self, idx: usize, range: Range<usize>) -> (r: Vec<bool>) {
        let n = bv_len(&self.store);
        let (rows, cols) = (self.size.x, self.size.y);
        let mut r: Vec<bool> = Vec::new();
        let mut i = range.start;
        while i < range.end && i < rows
            invariant
                self.spec_wf(),
                n == bitseq_bits(self.store).len(),
                rows == self.size.x,
                cols == self.size.y,
                idx < cols,
                range.start <= i <= range.end,
                i == range.start || i <= rows,
                r@.len() == i - range.start,
                forall|k: int|
                    0 <= k < r@.len() ==> r@[k] == bitseq_bits(self.store)[(range.start + k) * cols
                        + idx],
            decreases range.end - i,
        {
            proof {
                assert(i * cols + idx < rows * cols) by (nonlinear_arith)
                    requires
                        i < rows,
                        idx < cols,
                ;
            }
            r.push(bv_get(&self.store, i * cols + idx));
            i = i + 1;
        }
        r
    }
}

} // verus!
