//! A character-grid arcade shooter core: a marching swarm, a player with a
//! single projectile, frame composition and minimal screen diffs.

pub mod frame;
pub mod game;
pub mod invaders;
pub mod player;
pub mod render;
pub mod shot;
pub mod timer;

use vstd::prelude::*;

verus! {

/// Number of rows of the playing grid.
pub const NUM_ROWS: usize = 20;

/// Number of columns of the playing grid.
pub const NUM_COLS: usize = 40;

} // verus!
