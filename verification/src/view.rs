//! Tile slice indices and tilemaps.
pub mod arraymap;
pub mod index;
pub mod inspect;
pub mod tilemap;
pub mod bitmap;
pub mod packmap;
pub mod ndmap;
pub mod mdmap;
