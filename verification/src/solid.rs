//! Solid (boolean) tile collision.
pub mod collision;
pub mod context;
pub mod tile;
