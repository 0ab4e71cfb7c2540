use vstd::prelude::*;

pub mod dave;
pub mod game;
pub mod input;
pub mod level;
pub mod monster;
pub mod tileset;
pub mod vga;

verus! {

/// Edge length of a tile, in pixels.
pub const TILE_SIZE: i16 = 16;

} // verus!
