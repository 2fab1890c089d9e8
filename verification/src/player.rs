//! The controllable entity as one flat record: position, base sprite frame,
//! motion state and animation counter.

use vstd::prelude::*;

use crate::direction::Direction;
use crate::geom::Point;
use crate::geom::Rect;
use crate::motion::Motion;
use crate::motion::Velocity;
use crate::motion::release_step;
use crate::PLAYER_MOVEMENT_SPEED;

verus! {

/// What moving the player under the opposite-cancel policy does to the
/// motion state: the direction is pushed if not already held, and the
/// speed is zeroed if the direction's geometric opposite is held (the two
/// keys cancel out) and set to the movement constant otherwise.
pub open spec fn move_step(m: Motion, direction: Direction, opposite: Direction) -> Motion {
    Motion {
        stack: if m.stack.contains(direction) {
            m.stack
        } else {
            m.stack.push(direction)
        },
        speed: if m.stack.contains(opposite) {
            0
        } else {
            PLAYER_MOVEMENT_SPEED as int
        },
        last: m.last,
    }
}

/// The controllable entity.
#[derive(Debug, Clone, PartialEq, Eq)]
pub struct Player {
    /// Where the entity stands.
    pub position: Point,
    /// The top-left frame of the entity's sprite sheet.
    pub sprite: Rect,
    /// The entity's motion state: speed, held directions, last direction.
    pub velocity: Velocity,
    /// The animation frame counter.
    pub current_frame: i32,
}

impl Player {
    /// A new player: at the origin, idle, facing nothing yet, with the
    /// default sprite frame.
    pub fn new() -> (p: Player)
        ensures
            p.position == (Point { x: 0, y: 0 }),
            p.sprite == (Rect { x: 0, y: 0, width: 26, height: 36 }),
            p.velocity@ == Motion::initial(),
            p.velocity@.inv(),
            p.current_frame == 0,
    {
        let position = Point::new(0, 0);
        let sprite = Rect::new(0, 0, 26, 36);

        Player { position, sprite, velocity: Velocity::new(), current_frame: 0 }
    }

    /// Add `direction` to the player's held directions, under the
    /// opposite-cancel policy: if `opposite` — the caller passes the
    /// geometric opposite of `direction` — is currently held, the two keys
    /// cancel out and the speed drops to 0 instead of the movement
    /// constant. The direction is pushed only if not already held, so key
    /// repeats are absorbed.
    ///
    /// This is the alternative input policy; the default last-pressed-wins
    /// policy is `Velocity::press`.
    pub fn move_player(&mut self, direction: Direction, opposite: Direction)
        ensures
            final(self).velocity@ == move_step(old(self).velocity@, direction, opposite),
            final(self).position == old(self).position,
            final(self).sprite == old(self).sprite,
            final(self).current_frame == old(self).current_frame,
    {
        if self.velocity.direction.contains(opposite) {
            self.velocity.speed = 0;
        } else {
            self.velocity.speed = PLAYER_MOVEMENT_SPEED;
        }
        self.velocity.direction.push(direction);
    }

    /// Remove `direction` from the player's held directions, wherever it
    /// sits. If the stack becomes empty the player stops and remembers the
    /// direction it was moving in; otherwise it keeps moving in the new
    /// tail direction. Releasing a direction that is not held, or with
    /// nothing held, changes nothing it need not change.
    pub fn unmove_player(&mut self, direction: Direction)
        ensures
            final(self).velocity@ == release_step(old(self).velocity@, direction),
            final(self).position == old(self).position,
            final(self).sprite == old(self).sprite,
            final(self).current_frame == old(self).current_frame,
    {
        self.velocity.release(direction);
    }
}

} // verus!
