//! Tilemap scenes.
pub mod scene;
pub mod state;
