//! Half-tile slope collision: vertex masks, tile patterns and edge ranges.
pub mod vertex_mask;
pub mod tile;
pub mod collision;
pub mod context;
pub mod state;
pub mod handlers;
