use vstd::prelude::*;

use crate::ctx::scene::Scene;
use crate::plane::axis_mask::AxisMask;

verus! {

/// # Context
///
/// A [`Scene`] wrapper for solid tile displacement.
pub struct Context<Sc, M>(pub Scene<Sc, M>);

impl<Sc, M> Context<Sc, M> {
    /// Create a new `Context` with the given `map` and `map_bounds`.
    pub fn new(map: M, map_bounds: AxisMask) -> (r: Self)
        ensures
            r.0.map == map,
            r.0.map_bounds == map_bounds,
    {
        Context(Scene::new(map, map_bounds))
    }

    /// Create a new `Context` from the given [`Scene`].
    pub fn from_scene(scene: Scene<Sc, M>) -> (r: Self)
        ensures
            r.0 == scene,
    {
        Context(scene)
    }

    /// Get a reference to the [`Scene`].
    pub fn scene(&self) -> (r: &Scene<Sc, M>)
        ensures
            *r == self.0,
    {
        &self.0
    }

    /// Get a mutable reference to the [`Scene`].
    pub fn scene_mut(&mut self) -> (r: &mut Scene<Sc, M>)
        ensures
            *r == old(self).0,
            final(self).0 == *final(r),
    {
        &mut self.0
    }

    /// Return the map bound [`AxisMask`].
    pub fn map_bounds(&self) -> (r: AxisMask)
        ensures
            r == self.0.map_bounds,
    {
        self.0.map_bounds
    }

    /// Return a mutable reference to the map bound [`AxisMask`].
    pub fn map_bounds_mut(&mut self) -> (r: &mut AxisMask)
        ensures
            *r == old(self).0.map_bounds,
            final(self).0.map_bounds == *final(r),
            final(self).0.map == old(self).0.map,
    {
        &mut self.0.map_bounds
    }

    /// Consume the `Context` returning the inner [`Scene`].
    pub fn take(self) -> (r: Scene<Sc, M>)
        ensures
            r == self.0,
    {
        self.0
    }
}

} // verus!
