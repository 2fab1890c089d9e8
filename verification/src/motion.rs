//! Per-entity motion state and the input resolver's press/release operations.
//!
//! The entity's motion is a two-state machine: idle (speed 0, stack empty)
//! and moving (speed equal to the movement constant, stack non-empty).
//! Pressing a key pushes its direction; releasing removes it wherever it
//! sits. The chosen resolution policy is "last pressed wins": the stack's
//! tail is the current movement direction.

use vstd::prelude::*;

use crate::direction::Direction;
use crate::stack::DirectionStack;
use crate::stack::lemma_seq_remove_properties;
use crate::stack::no_duplicates;
use crate::stack::seq_remove;
use crate::PLAYER_MOVEMENT_SPEED;

verus! {

/// The mathematical model of a motion state: the held directions in press
/// order, the speed, and the direction the entity last moved in before it
/// stopped.
pub ghost struct Motion {
    pub stack: Seq<Direction>,
    pub speed: int,
    pub last: Option<Direction>,
}

impl Motion {
    /// The motion state of a freshly created, idle entity.
    pub open spec fn initial() -> Motion {
        Motion { stack: Seq::empty(), speed: 0, last: None }
    }

    /// The two-state machine invariant: the stack holds no duplicates, an
    /// empty stack means idle (speed 0), and a non-empty stack means moving
    /// at the movement constant.
    pub open spec fn inv(self) -> bool {
        &&& no_duplicates(self.stack)
        &&& self.stack.len() == 0 ==> self.speed == 0
        &&& self.stack.len() > 0 ==> self.speed == PLAYER_MOVEMENT_SPEED
    }

    /// The current movement direction: the most recently pressed held
    /// direction, if any.
    pub open spec fn current(self) -> Option<Direction> {
        if self.stack.len() == 0 {
            None
        } else {
            Some(self.stack.last())
        }
    }
}

/// What pressing a direction key does to a motion state: push the direction
/// if it is not already held (key repeats are ignored) and move at the
/// movement constant.
pub open spec fn press_step(m: Motion, d: Direction) -> Motion {
    Motion {
        stack: if m.stack.contains(d) {
            m.stack
        } else {
            m.stack.push(d)
        },
        speed: PLAYER_MOVEMENT_SPEED as int,
        last: m.last,
    }
}

/// What releasing a direction key does to a motion state: remove the
/// direction wherever it sits. If the stack becomes empty the entity stops
/// and remembers the direction it was moving in; if directions are still
/// held it keeps moving. Releasing with nothing held is a no-op.
pub open spec fn release_step(m: Motion, d: Direction) -> Motion {
    if m.stack.len() == 0 {
        m
    } else {
        let removed = seq_remove(m.stack, d);
        if removed.len() == 0 {
            Motion { stack: removed, speed: 0, last: Some(m.stack.last()) }
        } else {
            Motion { stack: removed, speed: PLAYER_MOVEMENT_SPEED as int, last: m.last }
        }
    }
}

/// Per-entity motion state: the speed, the stack of held directions, and
/// the direction last moved in (used to pick an idle animation row).
#[derive(Debug, Clone, PartialEq, Eq)]
pub struct Velocity {
    /// Position units moved per tick: 0 when idle, the movement constant
    /// when moving.
    pub speed: i32,
    /// The directions currently held, newest last; the tail is the current
    /// movement direction.
    pub direction: DirectionStack,
    /// Set at the moment the stack becomes empty: the direction the entity
    /// was moving in just before it stopped.
    pub last_direction: Option<Direction>,
}

impl View for Velocity {
    type V = Motion;

    open spec fn view(&self) -> Motion {
        Motion { stack: self.direction@, speed: self.speed as int, last: self.last_direction }
    }
}

impl Velocity {
    /// The motion state of a freshly created, idle entity.
    pub fn new() -> (v: Velocity)
        ensures
            v@ == Motion::initial(),
            v@.inv(),
    {
        Velocity { speed: 0, direction: DirectionStack::new(), last_direction: None }
    }

    /// Record that a direction key went down: push the direction if it is
    /// not already held and move at the movement constant.
    pub fn press(&mut self, direction: Direction)
        ensures
            final(self)@ == press_step(old(self)@, direction),
    {
        self.speed = PLAYER_MOVEMENT_SPEED;
        self.direction.push(direction);
    }

    /// Record that a direction key went up: remove the direction from
    /// wherever it sits in the stack. If the stack becomes empty, stop and
    /// remember the direction moved in just before stopping; otherwise keep
    /// moving in the new tail direction.
    pub fn release(&mut self, direction: Direction)
        ensures
            final(self)@ == release_step(old(self)@, direction),
    {
        let tail = self.direction.back();
        match tail {
            None => {},
            Some(_) => {
                self.direction.remove(direction);
                if self.direction.is_empty() {
                    self.speed = 0;
                    self.last_direction = tail;
                } else {
                    self.speed = PLAYER_MOVEMENT_SPEED;
                }
            },
        }
    }
}

/// Pressing preserves the two-state machine invariant; in particular the
/// stack stays duplicate-free and the entity is moving at the movement
/// constant afterwards.
pub proof fn lemma_press_step_preserves_inv(m: Motion, d: Direction)
    requires
        m.inv(),
    ensures
        press_step(m, d).inv(),
        press_step(m, d).stack.len() > 0,
        press_step(m, d).speed == PLAYER_MOVEMENT_SPEED,
{
    broadcast use vstd::seq_lib::lemma_seq_contains, vstd::seq_lib::lemma_seq_contains_after_push;

    if !m.stack.contains(d) {
        let out = m.stack.push(d);
        assert forall|i: int, j: int| 0 <= i < j < out.len() implies out[i] != out[j] by {
            if j == out.len() - 1 {
                assert(m.stack.contains(out[i]));
            }
        }
    }
}

/// Releasing preserves the two-state machine invariant; if it empties the
/// stack, the released direction was the only one held, and it is recorded
/// as the last direction moved in.
pub proof fn lemma_release_step_preserves_inv(m: Motion, d: Direction)
    requires
        m.inv(),
    ensures
        release_step(m, d).inv(),
        m.stack.len() > 0 && release_step(m, d).stack.len() == 0 ==> release_step(m, d).last
            == Some(d),
        release_step(m, d).stack.len() == 0 ==> release_step(m, d).speed == 0,
        release_step(m, d).stack.len() > 0 ==> release_step(m, d).speed
            == PLAYER_MOVEMENT_SPEED,
{
    lemma_seq_remove_properties(m.stack, d);
    if m.stack.len() > 0 && seq_remove(m.stack, d).len() == 0 {
        assert(m.stack.contains(d));
        assert(m.stack.len() == 1);
        assert(m.stack[0] == d) by {
            broadcast use vstd::seq_lib::lemma_seq_contains;

        }
        assert(m.stack.last() == d);
    }
}

} // verus!
