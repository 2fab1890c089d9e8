//! The animation selector: sprite-sheet rows, columns and the frame
//! counter.
//!
//! A sprite sheet holds one row of frames per facing direction (row order:
//! Down 0, Left 1, Right 2, Up 3) and a fixed number of columns. The row is
//! chosen from the current movement direction if the entity is moving, else
//! from the direction it last moved in, else the default Down row. The
//! column is a counter that advances cyclically on every tick in which the
//! entity moves and holds its value while the entity stands still.

use vstd::prelude::*;

use crate::ANIMATION_FRAME_COUNT;
use crate::direction::Direction;
use crate::geom::Rect;

verus! {

/// The sprite-sheet row showing an entity that faces `d`.
pub open spec fn direction_row(d: Direction) -> int {
    match d {
        Direction::Up => 3,
        Direction::Down => 0,
        Direction::Left => 1,
        Direction::Right => 2,
    }
}

/// The sprite-sheet row to draw: the current direction's row if the entity
/// is moving, else the row of the direction it last moved in, else the
/// default Down row.
pub open spec fn chosen_row(last: Option<Direction>, current: Option<Direction>) -> int {
    match current {
        Some(d) => direction_row(d),
        None => match last {
            Some(d) => direction_row(d),
            None => 0,
        },
    }
}

/// One frame to draw: a sub-rectangle of a sprite-sheet texture.
#[derive(Debug, Clone, Copy, PartialEq, Eq, Structural)]
pub struct Sprite {
    /// Which sprite-sheet texture the region indexes into.
    pub spritesheet: usize,
    /// The sub-rectangle of that texture to draw.
    pub region: Rect,
}

/// Whether `s` is frame column `k` of the row that shows direction `d`, on
/// the sheet whose top-left frame is `tlf`: columns advance by the frame
/// width, rows by the frame height.
pub open spec fn frame_at(sheet: usize, tlf: Rect, d: Direction, k: int, s: Sprite) -> bool {
    &&& s.spritesheet == sheet
    &&& s.region.x == tlf.x + k * tlf.width
    &&& s.region.y == tlf.y + direction_row(d) * tlf.height
    &&& s.region.width == tlf.width
    &&& s.region.height == tlf.height
}

/// Whether `frames` is exactly the row of frames showing direction `d`.
pub open spec fn is_frame_row(frames: Seq<Sprite>, sheet: usize, tlf: Rect, d: Direction) -> bool {
    &&& frames.len() == ANIMATION_FRAME_COUNT
    &&& forall|k: int| 0 <= k < frames.len() ==> frame_at(sheet, tlf, d, k, #[trigger] frames[k])
}

/// The sprite-sheet row to draw, as an index: the current direction's row
/// if one is held, else the last-moved direction's row, else the default
/// Down row. Reading the current direction off an empty stack therefore
/// never fails; it falls back to the default.
pub fn direction_spritesheet_row(
    last_direction: Option<Direction>,
    direction: Option<Direction>,
) -> (row: i32)
    ensures
        row == chosen_row(last_direction, direction),
{
    let direction_to_use: Option<Direction> = match direction {
        Some(d) => Some(d),
        None => last_direction,
    };

    match direction_to_use {
        Some(Direction::Up) => 3,
        Some(Direction::Down) => 0,
        Some(Direction::Left) => 1,
        Some(Direction::Right) => 2,
        None => 0,
    }
}

/// Build the row of animation frames showing direction `direction`, derived
/// from the sheet's top-left frame: one frame per column, each offset by the
/// frame width, all on the direction's row.
pub fn character_animation_frames(
    spritesheet: usize,
    top_left_frame: Rect,
    direction: Direction,
) -> (frames: Vec<Sprite>)
    requires
        2 * top_left_frame.width <= i32::MAX,
        3 * top_left_frame.height <= i32::MAX,
        top_left_frame.x + 2 * top_left_frame.width <= i32::MAX,
        top_left_frame.y + 3 * top_left_frame.height <= i32::MAX,
    ensures
        is_frame_row(frames@, spritesheet, top_left_frame, direction),
{
    let frame_width = top_left_frame.width;
    let frame_height = top_left_frame.height;
    let row = direction_spritesheet_row(Some(direction), None);
    let y_offset = top_left_frame.y + frame_height as i32 * row;

    let mut frames: Vec<Sprite> = Vec::new();
    let mut i: i32 = 0;
    while i < 3
        invariant
            0 <= i <= 3,
            frames@.len() == i,
            frame_width == top_left_frame.width,
            frame_height == top_left_frame.height,
            2 * top_left_frame.width <= i32::MAX,
            top_left_frame.x + 2 * top_left_frame.width <= i32::MAX,
            y_offset == top_left_frame.y + direction_row(direction) * top_left_frame.height,
            forall|k: int| 0 <= k < i ==> frame_at(spritesheet, top_left_frame, direction, k,
                #[trigger] frames@[k]),
        decreases 3 - i,
    {
        proof {
            assert(0 <= frame_width as int * i <= 2 * frame_width as int) by (nonlinear_arith)
                requires
                    0 <= i <= 2,
                    frame_width >= 0,
            ;
        }
        frames.push(Sprite {
            spritesheet,
            region: Rect::new(
                top_left_frame.x + frame_width as i32 * i,
                y_offset,
                frame_width,
                frame_height,
            ),
        });
        i = i + 1;
    }
    frames
}

/// An entity's animation state: the cycling frame counter and the four
/// rows of frames, one per facing direction. The rows are built once, at
/// entity creation; only the counter changes afterwards.
#[derive(Debug, Clone, PartialEq, Eq)]
pub struct MovementAnimation {
    /// The column to draw, cycling over the frame count while moving.
    pub current_frame: usize,
    /// The frames facing up, left to right.
    pub up_frames: Vec<Sprite>,
    /// The frames facing down, left to right.
    pub down_frames: Vec<Sprite>,
    /// The frames facing left, left to right.
    pub left_frames: Vec<Sprite>,
    /// The frames facing right, left to right.
    pub right_frames: Vec<Sprite>,
}

impl MovementAnimation {
    /// Each row holds exactly the frame count and the counter indexes into
    /// a row.
    pub open spec fn wf(&self) -> bool {
        &&& self.up_frames@.len() == ANIMATION_FRAME_COUNT
        &&& self.down_frames@.len() == ANIMATION_FRAME_COUNT
        &&& self.left_frames@.len() == ANIMATION_FRAME_COUNT
        &&& self.right_frames@.len() == ANIMATION_FRAME_COUNT
        &&& self.current_frame < ANIMATION_FRAME_COUNT
    }

    /// The row of frames facing `d`.
    pub open spec fn frames_of(self, d: Direction) -> Seq<Sprite> {
        match d {
            Direction::Up => self.up_frames@,
            Direction::Down => self.down_frames@,
            Direction::Left => self.left_frames@,
            Direction::Right => self.right_frames@,
        }
    }

    /// The row to draw from: the current direction's if the entity is
    /// moving, else the last-moved direction's, else the Down row.
    pub open spec fn chosen_frames(
        self,
        current: Option<Direction>,
        last: Option<Direction>,
    ) -> Seq<Sprite> {
        match current {
            Some(d) => self.frames_of(d),
            None => match last {
                Some(d) => self.frames_of(d),
                None => self.down_frames@,
            },
        }
    }

    /// Build the animation state for a sprite sheet whose top-left frame is
    /// `top_left_frame`: four rows of frames, one per facing direction, and
    /// the counter at 0.
    pub fn new(spritesheet: usize, top_left_frame: Rect) -> (a: MovementAnimation)
        requires
            2 * top_left_frame.width <= i32::MAX,
            3 * top_left_frame.height <= i32::MAX,
            top_left_frame.x + 2 * top_left_frame.width <= i32::MAX,
            top_left_frame.y + 3 * top_left_frame.height <= i32::MAX,
        ensures
            a.wf(),
            a.current_frame == 0,
            is_frame_row(a.up_frames@, spritesheet, top_left_frame, Direction::Up),
            is_frame_row(a.down_frames@, spritesheet, top_left_frame, Direction::Down),
            is_frame_row(a.left_frames@, spritesheet, top_left_frame, Direction::Left),
            is_frame_row(a.right_frames@, spritesheet, top_left_frame, Direction::Right),
    {
        MovementAnimation {
            current_frame: 0,
            up_frames: character_animation_frames(spritesheet, top_left_frame, Direction::Up),
            down_frames: character_animation_frames(spritesheet, top_left_frame, Direction::Down),
            left_frames: character_animation_frames(spritesheet, top_left_frame, Direction::Left),
            right_frames: character_animation_frames(spritesheet, top_left_frame, Direction::Right),
        }
    }

    /// Advance the frame counter by one, cyclically, if the entity moved
    /// this tick; hold it while the entity stands still.
    pub fn tick(&mut self, speed: i32)
        requires
            old(self).wf(),
        ensures
            final(self).wf(),
            speed != 0 ==> final(self).current_frame == (old(self).current_frame + 1) % (
            ANIMATION_FRAME_COUNT as int),
            speed == 0 ==> final(self).current_frame == old(self).current_frame,
            final(self).up_frames@ == old(self).up_frames@,
            final(self).down_frames@ == old(self).down_frames@,
            final(self).left_frames@ == old(self).left_frames@,
            final(self).right_frames@ == old(self).right_frames@,
    {
        if speed != 0 {
            self.current_frame = (self.current_frame + 1) % ANIMATION_FRAME_COUNT;
        }
    }

    /// The frame to draw: the counter's column in the chosen row.
    pub fn current_sprite(
        &self,
        direction: Option<Direction>,
        last_direction: Option<Direction>,
    ) -> (s: Sprite)
        requires
            self.wf(),
        ensures
            s == self.chosen_frames(direction, last_direction)[self.current_frame as int],
    {
        let direction_to_use: Option<Direction> = match direction {
            Some(d) => Some(d),
            None => last_direction,
        };
        let frames: &Vec<Sprite> = match direction_to_use {
            Some(Direction::Up) => &self.up_frames,
            Some(Direction::Down) => &self.down_frames,
            Some(Direction::Left) => &self.left_frames,
            Some(Direction::Right) => &self.right_frames,
            None => &self.down_frames,
        };
        frames[self.current_frame]
    }
}

} // verus!
