//! A minimal tile-map renderer core.
//!
//! The crate keeps a grid of stacked tile layers, slices a texture atlas
//! into fixed-size source rectangles, and composites the visible tiles
//! into a flat draw list (painter's algorithm with occlusion by opaque
//! tiles). All geometry is integer pixel arithmetic; a host renderer is
//! expected to turn the draw list into actual draw calls.

pub mod draw;
pub mod texture_atlas;
pub mod game_map;
pub mod sprite_sheet;
pub mod game_state;
