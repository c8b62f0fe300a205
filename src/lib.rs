//! A first-person tile-grid renderer's core: a compiler from a text level map
//! to oriented surface tiles, a quarter-turn camera driven by discrete
//! commands, and the mapping from a tile to the quad that draws it.
pub mod camera;
pub mod geometry;
pub mod level;
