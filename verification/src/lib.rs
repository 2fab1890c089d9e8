//! Movement and animation core of a small real-time game loop.
//!
//! Each simulated tick, the library resolves held movement keys into a
//! current direction and speed (the direction stack), advances the entity's
//! position, and selects the sprite-sheet region to draw. Window creation,
//! texture loading, event polling and frame pacing are a platform boundary
//! that lives outside this crate.

use vstd::prelude::*;

pub mod animation;
pub mod direction;
pub mod geom;
pub mod input;
pub mod laws;
pub mod motion;
pub mod physics;
pub mod pipeline;
pub mod player;
pub mod stack;

verus! {

/// Speed, in position units per tick, of a moving entity.
pub const PLAYER_MOVEMENT_SPEED: i32 = 5;

/// Number of animation frames (columns) in each sprite-sheet row.
pub const ANIMATION_FRAME_COUNT: usize = 3;

} // verus!
