//! A small text-mode exploration game: a player glyph moves across a
//! bordered, randomly seeded tile map, occasionally triggering an encounter
//! (a spiral screen-wipe animation followed by a dialog box showing a random
//! precept). This library holds the game's logic — map generation, movement,
//! the state machine, rendering to glyph grids, and the encounter animation —
//! with contracts; terminal I/O lives outside it.

pub mod tilemap;
pub mod rng;
pub mod render;
pub mod dialog;
pub mod transition;
pub mod game;

use vstd::prelude::*;

verus! {

/// A position on the map: an integer pair, bounded to the map dimensions.
#[derive(Debug, Copy, Clone, PartialEq, Eq, Structural)]
pub struct Vector2 {
    pub x: i8,
    pub y: i8,
}

impl Vector2 {
    pub fn new(x: i8, y: i8) -> (v: Vector2)
        ensures
            v.x == x,
            v.y == y,
    {
        Vector2 { x, y }
    }

    pub fn add(self, other: Vector2) -> (v: Vector2)
        requires
            i8::MIN <= self.x + other.x <= i8::MAX,
            i8::MIN <= self.y + other.y <= i8::MAX,
        ensures
            v.x == self.x + other.x,
            v.y == self.y + other.y,
    {
        Vector2 { x: self.x + other.x, y: self.y + other.y }
    }
}

} // verus!
