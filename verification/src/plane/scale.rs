use vstd::prelude::*;

verus! {

/// # Scale
///
/// An integer tile size (for both axes). A single `Scale` should be kept across all operations
/// and should preferably be a power of two. See [`ConSc`].
pub trait Scale {
    /// The tile size.
    spec fn spec_value() -> u32;

    /// Get the tile size.
    fn value() -> (r: u32)
        ensures
            r == Self::spec_value(),
    ;

    /// Get the tile size as an `i32` integer.
    fn scale_int() -> (r: i32)
        requires
            Self::spec_value() <= i32::MAX,
        ensures
            r == Self::spec_value(),
    ;
}

/// # ConSc (Constant Scale)
///
/// A constant integer scale value. See [`Scale`].
#[derive(Debug, Clone, Copy)]
pub struct ConSc<const N: u32>;

impl<const N: u32> Scale for ConSc<N> {
    open spec fn spec_value() -> u32 {
        N
    }

    fn value() -> (r: u32) {
        let n: u32 = N;
        n
    }

    fn scale_int() -> (r: i32) {
        let n: u32 = N;
        n as i32
    }
}

} // verus!
