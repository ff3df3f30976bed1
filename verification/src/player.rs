//! Which way the player faces and which frame of the walk is shown.

use vstd::prelude::*;

verus! {

/// Frames in one row of a character sheet.
pub const FRAMES_PER_ROW: usize = 3;

/// The frame in which a character stands still.
pub const IDLE_FRAME: usize = 1;

/// The way the player faces.
#[derive(Clone, Copy, Debug, PartialEq, Eq, Structural)]
pub enum Facing {
    Down,
    Left,
    Right,
    Up,
}

impl Default for Facing {
    fn default() -> (f: Facing)
        ensures
            f == Facing::Down,
    {
        Facing::Down
    }
}

impl Facing {
    /// The row of the character sheet that shows this facing.
    pub open spec fn row(self) -> nat {
        match self {
            Facing::Down => 0,
            Facing::Left => 1,
            Facing::Right => 2,
            Facing::Up => 3,
        }
    }

    /// The row of the character sheet that shows this facing.
    pub fn sprite_row(&self) -> (r: usize)
        ensures
            r == self.row(),
    {
        match self {
            Facing::Down => 0,
            Facing::Left => 1,
            Facing::Right => 2,
            Facing::Up => 3,
        }
    }
}

/// The movement keys that are held down.
#[derive(Clone, Copy, Debug, PartialEq, Eq, Structural)]
pub struct MoveKeys {
    pub up: bool,
    pub down: bool,
    pub left: bool,
    pub right: bool,
}

/// One step along an axis: -1, 0 or 1.
pub open spec fn axis(positive: bool, negative: bool) -> int {
    (if positive {
        1int
    } else {
        0int
    }) - (if negative {
        1int
    } else {
        0int
    })
}

/// The direction asked for by the keys: right and up count as positive, and
/// opposite keys cancel.
pub fn movement_direction(keys: MoveKeys) -> (d: (i8, i8))
    ensures
        d.0 == axis(keys.right, keys.left),
        d.1 == axis(keys.up, keys.down),
{
    let mut dx: i8 = 0;
    let mut dy: i8 = 0;
    if keys.up {
        dy = dy + 1;
    }
    if keys.down {
        dy = dy - 1;
    }
    if keys.left {
        dx = dx - 1;
    }
    if keys.right {
        dx = dx + 1;
    }
    (dx, dy)
}

/// The absolute value.
pub open spec fn abs(v: int) -> int {
    if v < 0 {
        -v
    } else {
        v
    }
}

/// The facing after a move in direction `(dx, dy)`: along the axis on which
/// the move is longer, the horizontal one on a tie; unchanged with no move.
pub open spec fn facing_toward(current: Facing, dx: int, dy: int) -> Facing {
    if abs(dy) > abs(dx) {
        if dy > 0 {
            Facing::Up
        } else {
            Facing::Down
        }
    } else if dx != 0 {
        if dx > 0 {
            Facing::Right
        } else {
            Facing::Left
        }
    } else {
        current
    }
}

/// The facing after a move in direction `(dx, dy)`.
pub fn facing_after(current: Facing, dx: i8, dy: i8) -> (f: Facing)
    ensures
        f == facing_toward(current, dx as int, dy as int),
{
    let ax: i16 = if dx < 0 {
        -(dx as i16)
    } else {
        dx as i16
    };
    let ay: i16 = if dy < 0 {
        -(dy as i16)
    } else {
        dy as i16
    };
    if ay > ax {
        if dy > 0 {
            Facing::Up
        } else {
            Facing::Down
        }
    } else if dx != 0 {
        if dx > 0 {
            Facing::Right
        } else {
            Facing::Left
        }
    } else {
        current
    }
}

/// The frame of the walk that is shown, and whether the player moves.
#[derive(Clone, Copy, Debug, PartialEq, Eq, Structural)]
pub struct AnimationState {
    pub current_frame: usize,
    pub is_moving: bool,
}

impl Default for AnimationState {
    fn default() -> (a: AnimationState)
        ensures
            a == (AnimationState { current_frame: IDLE_FRAME, is_moving: false }),
    {
        AnimationState { current_frame: IDLE_FRAME, is_moving: false }
    }
}

/// The frame that follows `frame` in the cycle of three.
pub open spec fn frame_after(frame: nat) -> nat {
    (frame + 1) % 3
}

/// The place on the character sheet of `frame` in the row of `facing`.
pub open spec fn sheet_index(facing: Facing, frame: nat) -> nat {
    facing.row() * 3 + frame
}

impl AnimationState {
    /// Notes whether the player moves; a player that stops shows the idle
    /// frame.
    pub fn set_moving(&mut self, moving: bool)
        ensures
            final(self).is_moving == moving,
            final(self).current_frame == if moving {
                old(self).current_frame
            } else {
                IDLE_FRAME
            },
    {
        self.is_moving = moving;
        if !moving {
            self.current_frame = IDLE_FRAME;
        }
    }

    /// One tick of the animation. A player that stands shows the idle frame
    /// of its row. A player that moves goes on to the next frame when the
    /// frame timer has run out, and keeps the sprite otherwise. Returns the
    /// place on the sheet to show, if it is to be set.
    pub fn animate(&mut self, facing: Facing, timer_finished: bool) -> (index: Option<usize>)
        ensures
            final(self).is_moving == old(self).is_moving,
            !old(self).is_moving ==> *final(self) == *old(self) && index == Some(
                sheet_index(facing, IDLE_FRAME as nat) as usize,
            ),
            old(self).is_moving && !timer_finished ==> *final(self) == *old(self) && index is None,
            old(self).is_moving && timer_finished ==> final(self).current_frame == frame_after(
                old(self).current_frame as nat,
            ) && index == Some(sheet_index(facing, final(self).current_frame as nat) as usize),
            index is Some ==> index->0 < 12,
    {
        if !self.is_moving {
            return Some(facing.sprite_row() * FRAMES_PER_ROW + IDLE_FRAME);
        }
        if !timer_finished {
            return None;
        }
        self.current_frame = (self.current_frame % FRAMES_PER_ROW + 1) % FRAMES_PER_ROW;
        assert(self.current_frame == frame_after(old(self).current_frame as nat)) by {
            let f = old(self).current_frame as int;
            assert((f % 3 + 1) % 3 == (f + 1) % 3) by {
                vstd::arithmetic::div_mod::lemma_add_mod_noop(f, 1, 3);
            }
        }
        Some(facing.sprite_row() * FRAMES_PER_ROW + self.current_frame)
    }
}

} // verus!
