//! The library's guarantees across whole call sequences, stated and proved
//! over the motion model.

use vstd::prelude::*;

use crate::direction::Direction;
use crate::input::apply_commands;
use crate::input::lemma_apply_commands_preserves_inv;
use crate::input::MovementCommand;
use crate::motion::Motion;
use crate::motion::press_step;
use crate::motion::release_step;
use crate::motion::Velocity;
use crate::physics::x_delta;
use crate::physics::y_delta;
use crate::PLAYER_MOVEMENT_SPEED;
use crate::stack::lemma_seq_remove_properties;
use crate::stack::lemma_seq_remove_push;
use crate::stack::no_duplicates;

verus! {

/// At every point of every sequence of press and release calls starting
/// from the idle state, the direction stack holds no duplicate direction;
/// moreover, whenever the stack is non-empty the speed equals the movement
/// constant, and whenever it is empty the speed is 0.
pub proof fn lemma_stack_never_duplicates(commands: Seq<MovementCommand>, k: int)
    requires
        0 <= k <= commands.len(),
    ensures
        no_duplicates(apply_commands(Motion::initial(), commands.take(k)).stack),
        apply_commands(Motion::initial(), commands.take(k)).inv(),
{
    lemma_apply_commands_preserves_inv(Motion::initial(), commands.take(k));
}

/// Releasing a direction that is not currently pressed leaves the whole
/// motion state — stack, speed and last direction — unchanged.
pub proof fn lemma_release_not_held_is_noop(m: Motion, d: Direction)
    requires
        m.inv(),
        !m.stack.contains(d),
    ensures
        release_step(m, d) == m,
{
    lemma_seq_remove_properties(m.stack, d);
}

/// Pressing `a`, then `b`, then releasing `b` puts the entity back on
/// course `a`, still at the movement constant: the later press overrides
/// the earlier one but does not cancel it, and releasing the later one
/// reverts to the earlier.
pub proof fn lemma_later_press_overrides_then_reverts(m: Motion, a: Direction, b: Direction)
    requires
        m.inv(),
        !m.stack.contains(a),
        !m.stack.contains(b),
        a != b,
    ensures
        release_step(press_step(press_step(m, a), b), b).stack == m.stack.push(a),
        release_step(press_step(press_step(m, a), b), b).current() == Some(a),
        release_step(press_step(press_step(m, a), b), b).speed == PLAYER_MOVEMENT_SPEED,
{
    broadcast use vstd::seq_lib::lemma_seq_contains_after_push;

    assert(!m.stack.push(a).contains(b));
    lemma_seq_remove_push(m.stack.push(a), b);
    assert(release_step(press_step(press_step(m, a), b), b).stack == m.stack.push(a));
    assert(m.stack.push(a).last() == a);
}

/// While the speed is 0, a position update displaces the entity by nothing,
/// so repeated ticks never change its position.
pub proof fn lemma_idle_ticks_fix_position(v: Velocity)
    requires
        v.speed == 0,
    ensures
        x_delta(v) == 0,
        y_delta(v) == 0,
{
}

} // verus!
