use vstd::prelude::*;

verus! {

/// # SolidTile
///
/// Implemented on tilemap elements that can represent a collision (or lack thereof).
pub trait SolidTile {
    /// The tile is solid.
    spec fn spec_is_solid(&self) -> bool;

    /// Returns `true` if a tile is solid.
    fn is_solid(&self) -> (r: bool)
        ensures
            r == self.spec_is_solid(),
    ;
}

impl SolidTile for bool {
    open spec fn spec_is_solid(&self) -> bool {
        *self
    }

    fn is_solid(&self) -> (r: bool) {
        *self
    }
}

impl SolidTile for u8 {
    open spec fn spec_is_solid(&self) -> bool {
        *self == 1
    }

    fn is_solid(&self) -> (r: bool) {
        *self == 1
    }
}

impl<'a, T: SolidTile + Copy> SolidTile for &'a T {
    open spec fn spec_is_solid(&self) -> bool {
        (**self).spec_is_solid()
    }

    fn is_solid(&self) -> (r: bool) {
        (**self).is_solid()
    }
}

} // verus!
