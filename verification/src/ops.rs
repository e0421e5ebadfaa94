//! Displacement helpers on tile indices.
pub mod displace;
pub mod scale;
