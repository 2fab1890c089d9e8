//! The per-tick pipeline: input, then movement, then animation.
//!
//! Once per tick, in this fixed order: apply the tick's batched input
//! events to the motion state, advance the position from the resulting
//! state, advance the frame counter from the resulting speed, and select
//! the frame to draw. Position and animation both observe the same
//! post-input state, so no half-updated frame is ever rendered. The caller
//! hands the returned position and sprite region to the rendering boundary.

use vstd::prelude::*;

use crate::animation::MovementAnimation;
use crate::animation::Sprite;
use crate::ANIMATION_FRAME_COUNT;
use crate::input::apply_events;
use crate::input::lemma_apply_events_preserves_inv;
use crate::input::InputEvent;
use crate::input::Keyboard;
use crate::motion::Velocity;
use crate::physics::Physics;
use crate::physics::Position;
use crate::physics::x_delta;
use crate::physics::y_delta;
use crate::PLAYER_MOVEMENT_SPEED;

verus! {

/// Run one simulation tick: apply the batched input events in arrival
/// order, move the entity, advance the animation, and return the frame to
/// draw at the new position.
pub fn tick(
    events: &Vec<InputEvent>,
    position: &mut Position,
    velocity: &mut Velocity,
    animation: &mut MovementAnimation,
) -> (sprite: Sprite)
    requires
        old(velocity)@.inv(),
        old(animation).wf(),
        i32::MIN + PLAYER_MOVEMENT_SPEED <= old(position).0.x <= i32::MAX
            - PLAYER_MOVEMENT_SPEED,
        i32::MIN + PLAYER_MOVEMENT_SPEED <= old(position).0.y <= i32::MAX
            - PLAYER_MOVEMENT_SPEED,
    ensures
        final(velocity)@ == apply_events(old(velocity)@, events@),
        final(velocity)@.inv(),
        final(position).0.x == old(position).0.x + x_delta(*final(velocity)),
        final(position).0.y == old(position).0.y + y_delta(*final(velocity)),
        final(animation).wf(),
        final(velocity).speed != 0 ==> final(animation).current_frame == (old(
            animation,
        ).current_frame + 1) % (ANIMATION_FRAME_COUNT as int),
        final(velocity).speed == 0 ==> final(animation).current_frame == old(
            animation,
        ).current_frame,
        final(animation).up_frames@ == old(animation).up_frames@,
        final(animation).down_frames@ == old(animation).down_frames@,
        final(animation).left_frames@ == old(animation).left_frames@,
        final(animation).right_frames@ == old(animation).right_frames@,
        sprite == final(animation).chosen_frames(
            final(velocity)@.current(),
            final(velocity).last_direction,
        )[final(animation).current_frame as int],
{
    Keyboard::apply(events, velocity);
    proof {
        lemma_apply_events_preserves_inv(old(velocity)@, events@);
    }
    Physics::run(position, velocity);
    animation.tick(velocity.speed);
    animation.current_sprite(velocity.direction.back(), velocity.last_direction)
}

} // verus!
