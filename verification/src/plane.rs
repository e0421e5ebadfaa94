//! Axes, axis masks, two-dimensional vectors, endpoint orientation and tile scale.
pub mod axis;
pub mod axis_mask;
pub mod axis_vec;
pub mod endpoint;
pub mod endpoint_pair;
pub mod endpoint_range;
pub mod scale;
