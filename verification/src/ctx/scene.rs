use core::marker::PhantomData;

use vstd::prelude::*;

use core::ops::Range;

use crate::plane::axis::{Axis, DynAxis};
use crate::plane::axis_mask::AxisMask;
use crate::plane::axis_vec::AxisVec;
use crate::plane::endpoint::Endpoint;
use crate::view::index::{SliceIndex, SliceIndexError};
use crate::view::inspect::{lemma_accepted_index_inspectable, spec_slice_args_ok, spec_slice_of, TileMapInspect};
use crate::view::tilemap::{TileMap, TileMapView};

verus! {

/// # Scene
///
/// Tilemap access and configuration: a constant integer scale `Sc`, a tilemap `M` and the
/// solid map bounds as an [`AxisMask`].
#[derive(Debug, PartialEq, Eq)]
pub struct Scene<Sc, M> {
    /// The (integer) size of a tile on either dimension.
    pub _scale: PhantomData<Sc>,
    /// The tilemap.
    pub map: M,
    /// Indicates which sides of the map are solid.
    pub map_bounds: AxisMask,
}

impl<Sc, M: Copy> Clone for Scene<Sc, M> {
    fn clone(&self) -> (r: Self)
        ensures
            r == *self,
    {
        Scene { _scale: PhantomData, map: self.map, map_bounds: self.map_bounds }
    }
}

impl<Sc, M: Copy> Copy for Scene<Sc, M> {

}

impl<Sc, M> Scene<Sc, M> {
    /// Create a new `Scene` with the given `map` and `map_bounds`.
    pub fn new(map: M, map_bounds: AxisMask) -> (r: Self)
        ensures
            r.map == map,
            r.map_bounds == map_bounds,
    {
        Scene { _scale: PhantomData, map, map_bounds }
    }

    /// Return the tilemap size.
    pub fn size(&self) -> (r: AxisVec<usize>)
        where
            M: TileMap,
        ensures
            r.x == self.map.spec_axis_len(DynAxis::X),
            r.y == self.map.spec_axis_len(DynAxis::Y),
    {
        self.map.size()
    }

    /// The slice index intersected by a vertex of tile index `index` at endpoint `end` (of the
    /// transpose axis of `B`), over the tile range `range` of the collider on axis `B`: the slice
    /// of axis `B` for the **inverted** endpoint (for a right vertex, the left-hand side of the
    /// intersecting column). Returns a [`SliceIndexError`] if no tile of it is in bounds.
    pub fn index_intersected<B: Axis>(&self, index: i32, end: Endpoint<B::T>, range: Range<i32>) -> (r:
        Result<SliceIndex<B>, SliceIndexError<B>>)
        where
            M: TileMap,
        ensures
            r is Ok <==> SliceIndex::<B>::spec_in_bounds(
                index,
                range,
                (AxisVec {
                    x: self.map.spec_axis_len(DynAxis::X),
                    y: self.map.spec_axis_len(DynAxis::Y),
                }),
            ),
            r matches Ok(idx) ==> idx.t_index == index && idx.range == range && idx.end.bound
                == end.bound.spec_invert() && idx.range_lmt == self.map.spec_axis_len(
                B::spec_dyn().spec_t(),
            ) as i32,
            r matches Err(e) ==> e.t_index == index && e.range == range && e.end.bound
                == end.bound.spec_invert(),
    {
        SliceIndex::<B>::try_new(index, range, end.invert(), self.map.size())
    }

    /// Inspect the slice of axis `A` at tile index `index`, over the tile range `range` of its
    /// transpose, for the **inverted** endpoint `end`. Returns a [`SliceIndexError`] if no tile of
    /// it is in bounds.
    pub fn inspect_index<A: Axis, Ins: TileMapInspect<A, M>>(
        &self,
        index: i32,
        end: Endpoint<A::T>,
        range: Range<i32>,
    ) -> (r: Result<Ins, SliceIndexError<A>>)
        where
            M: TileMapView<A>,
        requires
            spec_slice_args_ok::<A, M>(&self.map, range),
        ensures
            r is Ok <==> SliceIndex::<A>::spec_in_bounds(
                index,
                range,
                (AxisVec {
                    x: self.map.spec_axis_len(DynAxis::X),
                    y: self.map.spec_axis_len(DynAxis::Y),
                }),
            ),
            r matches Ok(ins) ==> ins.spec_inspects(
                &self.map,
                &spec_slice_of::<A, M>(&self.map, index as int, range, end.bound.spec_invert()),
            ),
            r matches Err(e) ==> e.t_index == index && e.range == range && e.end.bound
                == end.bound.spec_invert(),
    {
        match SliceIndex::<A>::try_new(index, range, end.invert(), self.map.size()) {
            Ok(slice) => {
                proof {
                    lemma_accepted_index_inspectable(&self.map, &slice);
                }
                assert(slice == spec_slice_of::<A, M>(&self.map, index as int, range, end.bound.spec_invert()));
                Ok(Ins::inspect(&self.map, &slice))
            },
            Err(e) => Err(e),
        }
    }

    /// Inspect the slice intersected by a vertex of tile index `index` at endpoint `end` (of
    /// the transpose axis of `B`), over the tile range `range` of the collider on axis `B`: see
    /// [`Scene::index_intersected`]. Returns a [`SliceIndexError`] if no tile of it is in
    /// bounds.
    pub fn inspect_intersected<B: Axis, Ins: TileMapInspect<B, M>>(
        &self,
        index: i32,
        end: Endpoint<B::T>,
        range: Range<i32>,
    ) -> (r: Result<Ins, SliceIndexError<B>>)
        where
            M: TileMapView<B>,
        requires
            spec_slice_args_ok::<B, M>(&self.map, range),
        ensures
            r is Ok <==> SliceIndex::<B>::spec_in_bounds(
                index,
                range,
                (AxisVec {
                    x: self.map.spec_axis_len(DynAxis::X),
                    y: self.map.spec_axis_len(DynAxis::Y),
                }),
            ),
            r matches Ok(ins) ==> ins.spec_inspects(
                &self.map,
                &spec_slice_of::<B, M>(&self.map, index as int, range, end.bound.spec_invert()),
            ),
            r matches Err(e) ==> e.t_index == index && e.range == range && e.end.bound
                == end.bound.spec_invert(),
    {
        match self.index_intersected::<B>(index, end, range) {
            Ok(slice) => {
                proof {
                    lemma_accepted_index_inspectable(&self.map, &slice);
                }
                assert(slice == spec_slice_of::<B, M>(&self.map, index as int, range, end.bound.spec_invert()));
                Ok(Ins::inspect(&self.map, &slice))
            },
            Err(e) => Err(e),
        }
    }
}

} // verus!
