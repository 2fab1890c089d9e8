//! The velocity/position updater: one tick of movement.
//!
//! Each tick, the updater reads the current movement direction — the tail
//! of the direction stack — and translates the entity's position by the
//! speed along that direction's axis. Up and Left are the negative
//! directions, Down and Right the positive ones, with y growing downward.
//! With no direction held the position is unchanged. The translation is a
//! pure function of direction and speed; speed is already in units per
//! tick, so no wall-clock time enters.

use vstd::prelude::*;

use crate::direction::Direction;
use crate::geom::Point;
use crate::motion::Velocity;

verus! {

/// The entity's position on the conceptual screen-centred plane.
#[derive(Debug, Clone, Copy, PartialEq, Eq, Structural)]
pub struct Position(pub Point);

/// The horizontal displacement one tick produces: the speed when moving
/// right, its negation when moving left, 0 otherwise.
pub open spec fn x_delta(v: Velocity) -> int {
    match v@.current() {
        Some(Direction::Left) => -(v.speed as int),
        Some(Direction::Right) => v.speed as int,
        _ => 0,
    }
}

/// The vertical displacement one tick produces: the speed when moving
/// down, its negation when moving up, 0 otherwise.
pub open spec fn y_delta(v: Velocity) -> int {
    match v@.current() {
        Some(Direction::Up) => -(v.speed as int),
        Some(Direction::Down) => v.speed as int,
        _ => 0,
    }
}

/// The velocity/position updater.
#[derive(Debug, Clone, Copy, PartialEq, Eq, Structural)]
pub struct Physics;

impl Physics {
    /// Advance the position by one tick of movement: translate it by the
    /// speed along the current direction's axis, or leave it unchanged when
    /// no direction is held. In particular, with speed 0 the position never
    /// changes, however often the updater runs.
    pub fn run(position: &mut Position, velocity: &Velocity)
        requires
            i32::MIN <= old(position).0.x + x_delta(*velocity) <= i32::MAX,
            i32::MIN <= old(position).0.y + y_delta(*velocity) <= i32::MAX,
        ensures
            final(position).0.x == old(position).0.x + x_delta(*velocity),
            final(position).0.y == old(position).0.y + y_delta(*velocity),
    {
        match velocity.direction.back() {
            Some(Direction::Left) => {
                position.0.x = position.0.x - velocity.speed;
            },
            Some(Direction::Right) => {
                position.0.x = position.0.x + velocity.speed;
            },
            Some(Direction::Up) => {
                position.0.y = position.0.y - velocity.speed;
            },
            Some(Direction::Down) => {
                position.0.y = position.0.y + velocity.speed;
            },
            None => {},
        }
    }
}

} // verus!
