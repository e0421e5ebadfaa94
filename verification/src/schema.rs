//! Displacement results.
pub mod brk;
