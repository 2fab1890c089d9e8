//! Mapping raw per-tick input events to direction stack operations.
//!
//! The platform boundary polls the operating system and hands the core a
//! batch of events per tick. The resolver turns each event into a movement
//! command — press or release of a direction — and applies the commands in
//! event order. Repeated key-up events (auto-repeat) and unrecognized
//! events produce no state change; repeated key-down events are absorbed by
//! the idempotence of pressing.

use vstd::prelude::*;

use crate::direction::Direction;
use crate::motion::Motion;
use crate::motion::Velocity;
use crate::motion::lemma_press_step_preserves_inv;
use crate::motion::lemma_release_step_preserves_inv;
use crate::motion::press_step;
use crate::motion::release_step;

verus! {

/// A resolved movement command: start or keep moving in a direction, or
/// release a held direction.
#[derive(Debug, Clone, Copy, PartialEq, Eq, Structural)]
pub enum MovementCommand {
    /// A direction key went down.
    Move(Direction),
    /// A direction key went up.
    Stop(Direction),
}

/// A raw input event handed over by the platform boundary, one of the
/// discrete events drained from its queue each tick.
#[derive(Debug, Clone, Copy, PartialEq, Eq, Structural)]
pub enum InputEvent {
    /// A direction key went down (possibly an auto-repeat).
    KeyDown(Direction),
    /// A direction key went up; `true` marks an auto-repeated key-up,
    /// which must be ignored.
    KeyUp(Direction, bool),
    /// The external quit signal; terminating the loop is the platform
    /// boundary's job, so the resolver ignores it.
    Quit,
    /// Any other event the platform produced; ignored.
    Unknown,
}

/// The command, if any, that an input event resolves to.
pub open spec fn resolved_command(event: InputEvent) -> Option<MovementCommand> {
    match event {
        InputEvent::KeyDown(d) => Some(MovementCommand::Move(d)),
        InputEvent::KeyUp(d, repeat) => if repeat {
            None
        } else {
            Some(MovementCommand::Stop(d))
        },
        InputEvent::Quit => None,
        InputEvent::Unknown => None,
    }
}

/// What a movement command does to a motion state.
pub open spec fn command_step(m: Motion, command: MovementCommand) -> Motion {
    match command {
        MovementCommand::Move(d) => press_step(m, d),
        MovementCommand::Stop(d) => release_step(m, d),
    }
}

/// What an input event does to a motion state: the effect of its resolved
/// command, or nothing.
pub open spec fn event_step(m: Motion, event: InputEvent) -> Motion {
    match resolved_command(event) {
        Some(command) => command_step(m, command),
        None => m,
    }
}

/// The motion state after applying a sequence of commands in order.
pub open spec fn apply_commands(m: Motion, commands: Seq<MovementCommand>) -> Motion
    decreases commands.len(),
{
    if commands.len() == 0 {
        m
    } else {
        apply_commands(command_step(m, commands.first()), commands.drop_first())
    }
}

/// The motion state after applying a sequence of input events in order.
pub open spec fn apply_events(m: Motion, events: Seq<InputEvent>) -> Motion
    decreases events.len(),
{
    if events.len() == 0 {
        m
    } else {
        apply_events(event_step(m, events.first()), events.drop_first())
    }
}

/// A command preserves the two-state machine invariant.
pub proof fn lemma_command_step_preserves_inv(m: Motion, command: MovementCommand)
    requires
        m.inv(),
    ensures
        command_step(m, command).inv(),
{
    match command {
        MovementCommand::Move(d) => lemma_press_step_preserves_inv(m, d),
        MovementCommand::Stop(d) => lemma_release_step_preserves_inv(m, d),
    }
}

/// An event preserves the two-state machine invariant.
pub proof fn lemma_event_step_preserves_inv(m: Motion, event: InputEvent)
    requires
        m.inv(),
    ensures
        event_step(m, event).inv(),
{
    match resolved_command(event) {
        Some(command) => lemma_command_step_preserves_inv(m, command),
        None => {},
    }
}

/// For every sequence of press and release commands from a state satisfying
/// the two-state machine invariant — in particular from the initial idle
/// state — the invariant still holds: the direction stack never holds a
/// duplicate direction, an empty stack comes with speed 0, and a non-empty
/// stack comes with speed equal to the movement constant.
pub proof fn lemma_apply_commands_preserves_inv(m: Motion, commands: Seq<MovementCommand>)
    requires
        m.inv(),
    ensures
        apply_commands(m, commands).inv(),
    decreases commands.len(),
{
    if commands.len() > 0 {
        lemma_command_step_preserves_inv(m, commands.first());
        lemma_apply_commands_preserves_inv(command_step(m, commands.first()),
            commands.drop_first());
    }
}

/// For every sequence of raw input events from a state satisfying the
/// two-state machine invariant, the invariant still holds.
pub proof fn lemma_apply_events_preserves_inv(m: Motion, events: Seq<InputEvent>)
    requires
        m.inv(),
    ensures
        apply_events(m, events).inv(),
    decreases events.len(),
{
    if events.len() > 0 {
        lemma_event_step_preserves_inv(m, events.first());
        lemma_apply_events_preserves_inv(event_step(m, events.first()), events.drop_first());
    }
}

/// The input resolver: applies resolved movement commands to an entity's
/// motion state.
#[derive(Debug, Clone, Copy, PartialEq, Eq, Structural)]
pub struct Keyboard;

impl Keyboard {
    /// Resolve one raw input event to a movement command, ignoring
    /// repeated key-ups, the quit signal and unrecognized events.
    pub fn resolve_event(event: &InputEvent) -> (r: Option<MovementCommand>)
        ensures
            r == resolved_command(*event),
    {
        match event {
            InputEvent::KeyDown(d) => Some(MovementCommand::Move(*d)),
            InputEvent::KeyUp(d, repeat) => if *repeat {
                None
            } else {
                Some(MovementCommand::Stop(*d))
            },
            InputEvent::Quit => None,
            InputEvent::Unknown => None,
        }
    }

    /// Apply one movement command, if any, to the motion state. `None`
    /// means no command arrived this tick and the state is unchanged.
    pub fn run(command: &Option<MovementCommand>, velocity: &mut Velocity)
        ensures
            final(velocity)@ == match *command {
                Some(c) => command_step(old(velocity)@, c),
                None => old(velocity)@,
            },
    {
        match command {
            Some(MovementCommand::Move(direction)) => velocity.press(*direction),
            Some(MovementCommand::Stop(direction)) => velocity.release(*direction),
            None => {},
        }
    }

    /// Apply a tick's batch of raw input events to the motion state, in
    /// the order they arrived.
    pub fn apply(events: &Vec<InputEvent>, velocity: &mut Velocity)
        ensures
            final(velocity)@ == apply_events(old(velocity)@, events@),
    {
        let ghost orig: Motion = velocity@;
        proof {
            assert(events@.skip(0) =~= events@);
        }
        let mut i: usize = 0;
        while i < events.len()
            invariant
                i <= events@.len(),
                apply_events(velocity@, events@.skip(i as int)) == apply_events(orig, events@),
            decreases events@.len() - i,
        {
            proof {
                assert(events@.skip(i as int).first() == events@[i as int]);
                assert(events@.skip(i as int).drop_first() =~= events@.skip(i as int + 1));
            }
            let command = Keyboard::resolve_event(&events[i]);
            Keyboard::run(&command, velocity);
            i = i + 1;
        }
        proof {
            assert(events@.skip(i as int) =~= Seq::<InputEvent>::empty());
        }
    }
}

} // verus!
