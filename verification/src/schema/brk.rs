use core::ops::ControlFlow;

use vstd::prelude::*;
use vstd::std_specs::convert::FromSpecImpl;

verus! {

/// # Break
///
/// The break variant of a displacement operation. Accepts a generic `T` for returning
/// additional tile bound collision data.
#[derive(Debug, Clone, Copy, PartialEq, Eq, PartialOrd, Ord, Structural)]
pub enum Break<T> {
    /// No attempted displacement due to a colliding edge, an intersected target, or a zero delta.
    NotDisplaced,
    /// Displaced to the target vertex without colliding.
    ReachedTarget,
    /// Collided at some point prior to the target.
    Collision(T),
}

impl<T> From<Break<T>> for ControlFlow<Break<T>> {
    fn from(brk: Break<T>) -> (r: Self) {
        ControlFlow::Break(brk)
    }
}

impl<T> FromSpecImpl<Break<T>> for ControlFlow<Break<T>> {
    open spec fn obeys_from_spec() -> bool {
        true
    }

    open spec fn from_spec(brk: Break<T>) -> Self {
        ControlFlow::Break(brk)
    }
}

} // verus!
