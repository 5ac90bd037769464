//! Core of a 2D tile-based game prototype: camera-bounded player movement,
//! key-press handling, a path-keyed texture cache, and the draw-command
//! geometry for tiling a sprite sheet across the screen.
//!
//! Everything here works on plain values. The windowing, rendering and
//! image-decoding collaborators live outside this crate: a driver turns the
//! draw commands produced here into calls on a real render target.

pub mod gfx;
pub mod player;
pub mod scenes;
pub mod texture_manager;
