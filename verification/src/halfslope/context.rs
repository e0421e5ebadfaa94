use core::marker::PhantomData;

use vstd::prelude::*;

use crate::ctx::scene::Scene;
use crate::plane::axis_mask::AxisMask;

verus! {

/// # Attach
///
/// Vertex handler marker for attaching on collision with a triangle hypotenuse: ends
/// displacement and attaches on intersection.
pub struct Attach;

/// # Slide
///
/// Vertex handler marker for sliding along a triangle hypotenuse on intersection.
pub struct Slide;

/// # Context
///
/// A [`Scene`] wrapper exposing displacement handlers ([`Context::attach_handler`] and
/// [`Context::slide_handler`]).
pub struct Context<Sc, M>(pub Scene<Sc, M>);

impl<Sc, M> Context<Sc, M> {
    /// Create a new `Context` with the given `map` and `map_bounds`.
    pub fn new(map: M, map_bounds: AxisMask) -> (r: Self)
        ensures
            r.0.map == map,
            r.0.map_bounds == map_bounds,
    {
        Context(Scene::new(map, map_bounds))
    }

    /// Get a reference to the [`Scene`].
    pub fn scene(&self) -> (r: &Scene<Sc, M>)
        ensures
            *r == self.0,
    {
        &self.0
    }

    /// Get a mutable reference to the [`Scene`].
    pub fn scene_mut(&mut self) -> (r: &mut Scene<Sc, M>)
        ensures
            *r == old(self).0,
            final(self).0 == *final(r),
    {
        &mut self.0
    }

    /// Return the map bound [`AxisMask`].
    pub fn map_bounds(&self) -> (r: AxisMask)
        ensures
            r == self.0.map_bounds,
    {
        self.0.map_bounds
    }

    /// Return a mutable reference to the map bound [`AxisMask`].
    pub fn map_bounds_mut(&mut self) -> (r: &mut AxisMask)
        ensures
            *r == old(self).0.map_bounds,
            final(self).0.map_bounds == *final(r),
            final(self).0.map == old(self).0.map,
    {
        &mut self.0.map_bounds
    }

    /// Use the [`Attach`] vertex handler.
    pub fn attach_handler<'a>(&'a self) -> (r: ContextHandler<'a, Sc, M, Attach>)
        ensures
            *r.0 == self.0,
    {
        ContextHandler::new(&self.0)
    }

    /// Use the [`Slide`] vertex handler.
    pub fn slide_handler<'a>(&'a self) -> (r: ContextHandler<'a, Sc, M, Slide>)
        ensures
            *r.0 == self.0,
    {
        ContextHandler::new(&self.0)
    }
}

/// # ContextHandler
///
/// A scene reference with the vertex handler marker `H`.
pub struct ContextHandler<'a, Sc, M, H>(pub &'a Scene<Sc, M>, pub PhantomData<H>);

impl<'a, Sc, M, H> ContextHandler<'a, Sc, M, H> {
    /// Create a new `ContextHandler` from the given [`Scene`] reference.
    pub fn new(scene: &'a Scene<Sc, M>) -> (r: Self)
        ensures
            *r.0 == *scene,
    {
        ContextHandler(scene, PhantomData)
    }
}

} // verus!
