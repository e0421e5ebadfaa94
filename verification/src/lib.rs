//! Tilemap collision primitives: axis markers, axis masks, endpoint orientation, tile slices,
//! tilemaps and tile collision masks, with their contracts checked by Verus.
pub mod plane;
pub mod schema;
pub mod halfslope;
pub mod view;
pub mod ctx;
pub mod solid;
pub mod bitseq;
pub mod ops;
