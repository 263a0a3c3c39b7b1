//! Which sprite to show: the walk cycle, the frames of a swing, the enemies'
//! two frames. Every index is checked against the length of its table, and a
//! sprite that is not there is not shown.

use vstd::prelude::*;
use crate::action::ActionPhase;
use crate::color::ColorId;
use crate::player::{Facing, PlayerState};

verus! {

/// How many sprites each of the player's tables holds.
#[derive(Clone, Copy, Debug, PartialEq, Eq, Structural)]
pub struct SpriteTable {
    pub walk_up: usize,
    pub walk_down: usize,
    pub walk_left: usize,
    pub walk_right: usize,
    pub swing_red: usize,
    pub swing_blue: usize,
    pub swing_green: usize,
}

impl SpriteTable {
    pub open spec fn walk_len_of(self, f: Facing) -> usize {
        match f {
            Facing::Up => self.walk_up,
            Facing::Down => self.walk_down,
            Facing::Left => self.walk_left,
            Facing::Right => self.walk_right,
        }
    }

    pub open spec fn swing_len_of(self, c: ColorId) -> usize {
        match c {
            ColorId::Red => self.swing_red,
            ColorId::Blue => self.swing_blue,
            ColorId::Green => self.swing_green,
        }
    }

    pub fn walk_len(&self, f: Facing) -> (r: usize)
        ensures
            r == self.walk_len_of(f),
    {
        match f {
            Facing::Up => self.walk_up,
            Facing::Down => self.walk_down,
            Facing::Left => self.walk_left,
            Facing::Right => self.walk_right,
        }
    }

    pub fn swing_len(&self, c: ColorId) -> (r: usize)
        ensures
            r == self.swing_len_of(c),
    {
        match c {
            ColorId::Red => self.swing_red,
            ColorId::Blue => self.swing_blue,
            ColorId::Green => self.swing_green,
        }
    }
}

/// Position of a facing in the swing tables: up, down, left, right.
pub open spec fn facing_index(f: Facing) -> nat {
    match f {
        Facing::Up => 0,
        Facing::Down => 1,
        Facing::Left => 2,
        Facing::Right => 3,
    }
}

/// Position of a swing sprite in its colour's table: four frames for each
/// facing, the facings one after the other.
pub open spec fn swing_slot(f: Facing, frame: u8) -> nat {
    facing_index(f) * 4 + frame as nat
}

/// The sprite of a swing frame, if the table of its colour holds it.
pub fn swing_sprite(table: &SpriteTable, f: Facing, frame: u8, color: ColorId) -> (r: Option<
    usize,
>)
    ensures
        swing_slot(f, frame) < table.swing_len_of(color) ==> r == Some(
            swing_slot(f, frame) as usize,
        ),
        swing_slot(f, frame) >= table.swing_len_of(color) ==> r is None,
{
    let base: usize = match f {
        Facing::Up => 0,
        Facing::Down => 4,
        Facing::Left => 8,
        Facing::Right => 12,
    };
    let slot: usize = base + frame as usize;
    if slot < table.swing_len(color) {
        Some(slot)
    } else {
        None
    }
}

/// A cycle of frames shown at a fixed rate.
#[derive(Clone, Copy, Debug, PartialEq, Eq, Structural)]
pub struct FrameClock {
    pub frame: u8,
    pub timer_us: u64,
    pub frames_per_second: u8,
    pub total_frames: u8,
}

/// Time added to a timer, held at the largest value.
pub open spec fn timer_plus(timer_us: u64, delta_us: u32) -> u64 {
    if timer_us + delta_us > u64::MAX {
        u64::MAX
    } else {
        (timer_us + delta_us) as u64
    }
}

impl FrameClock {
    /// The frame has been shown for its share of a second.
    pub open spec fn due(self) -> bool {
        self.frames_per_second > 0 && self.timer_us * self.frames_per_second >= 1_000_000
    }

    /// The next frame of the cycle; a cycle without frames stays where it is.
    pub open spec fn next_frame(self) -> u8 {
        if self.total_frames == 0 {
            self.frame
        } else {
            ((self.frame + 1) % (self.total_frames as int)) as u8
        }
    }

    /// The clock with `delta_us` added to its timer.
    pub open spec fn waited(self, delta_us: u32) -> FrameClock {
        FrameClock { timer_us: timer_plus(self.timer_us, delta_us), ..self }
    }

    /// An enemy's clock after a tick: when the frame is due the next one
    /// comes and the timer starts again.
    pub open spec fn cycled(self, delta_us: u32) -> FrameClock {
        let w = self.waited(delta_us);
        if w.due() {
            FrameClock { frame: w.next_frame(), timer_us: 0, ..w }
        } else {
            w
        }
    }

    /// The player's walk clock after a tick. With no sprite for the current
    /// frame only time passes. A player who moves steps to the next frame
    /// when it is due; one who stands shows the first frame.
    pub open spec fn walked(self, moving: bool, table_len: usize, delta_us: u32) -> FrameClock {
        let w = self.waited(delta_us);
        if w.frame >= table_len {
            w
        } else if moving && w.due() {
            FrameClock { frame: w.next_frame(), timer_us: 0, ..w }
        } else if !moving {
            FrameClock { frame: 0, ..w }
        } else {
            w
        }
    }

    /// The player's walk cycle: two frames, eight a second.
    pub fn player() -> (r: FrameClock)
        ensures
            r == (FrameClock { frame: 0, timer_us: 0, frames_per_second: 8, total_frames: 2 }),
    {
        FrameClock { frame: 0, timer_us: 0, frames_per_second: 8, total_frames: 2 }
    }

    /// An enemy's cycle: two frames, six a second.
    pub fn enemy() -> (r: FrameClock)
        ensures
            r == (FrameClock { frame: 0, timer_us: 0, frames_per_second: 6, total_frames: 2 }),
    {
        FrameClock { frame: 0, timer_us: 0, frames_per_second: 6, total_frames: 2 }
    }

    fn wait(&mut self, delta_us: u32)
        ensures
            *final(self) == old(self).waited(delta_us),
    {
        let sum: u128 = self.timer_us as u128 + delta_us as u128;
        if sum > 0xffff_ffff_ffff_ffffu128 {
            self.timer_us = u64::MAX;
        } else {
            self.timer_us = sum as u64;
        }
    }

    fn is_due(&self) -> (r: bool)
        ensures
            r == self.due(),
    {
        assert(self.timer_us * self.frames_per_second <= 0x1_0000_0000_0000_0000 * 0x100
            && self.timer_us * self.frames_per_second >= 0) by (nonlinear_arith)
            requires
                0 <= self.timer_us <= 0x1_0000_0000_0000_0000,
                0 <= self.frames_per_second <= 0x100,
        ;
        self.frames_per_second > 0 && self.timer_us as u128 * self.frames_per_second as u128
            >= 1_000_000
    }

    fn step_frame(&mut self)
        ensures
            *final(self) == (FrameClock { frame: old(self).next_frame(), timer_us: 0, ..*old(self) }),
    {
        if self.total_frames != 0 {
            let next: u16 = (self.frame as u16 + 1) % (self.total_frames as u16);
            self.frame = next as u8;
        }
        self.timer_us = 0;
    }

    /// One tick of an enemy's animation. Returns the sprite to show now, if
    /// the frame changed and the table holds it.
    pub fn cycle(&mut self, table_len: usize, delta_us: u32) -> (r: Option<u8>)
        ensures
            *final(self) == old(self).cycled(delta_us),
            r == if old(self).waited(delta_us).due() && final(self).frame < table_len {
                Some(final(self).frame)
            } else {
                None
            },
    {
        self.wait(delta_us);
        if self.is_due() {
            self.step_frame();
            if (self.frame as usize) < table_len {
                Some(self.frame)
            } else {
                None
            }
        } else {
            None
        }
    }

    /// One tick of the player's walk animation. Returns the sprite to show
    /// now, if the table holds it.
    pub fn walk(&mut self, moving: bool, table_len: usize, delta_us: u32) -> (r: Option<u8>)
        ensures
            *final(self) == old(self).walked(moving, table_len, delta_us),
            r == if old(self).frame < table_len && final(self).frame < table_len {
                Some(final(self).frame)
            } else {
                None
            },
    {
        self.wait(delta_us);
        if self.frame as usize >= table_len {
            return None;
        }
        if moving && self.is_due() {
            self.step_frame();
        } else if !moving {
            self.frame = 0;
        }
        if (self.frame as usize) < table_len {
            Some(self.frame)
        } else {
            None
        }
    }
}

/// What to put on the player's sprite after a tick.
#[derive(Clone, Copy, Debug, PartialEq, Eq, Structural)]
pub enum SpriteChoice {
    /// Leave the sprite as it is.
    Keep,
    /// A frame of the walk cycle of a facing.
    Walk { facing: Facing, frame: u8 },
    /// A sprite of the swing table of a colour.
    Swing { color: ColorId, slot: usize },
}

/// The sprite for the step of a swing from `before` to `after`: a new frame
/// of a swing still under way is shown if its table holds it; in every other
/// case the sprite stays, also when the swing has just ended.
pub open spec fn swing_choice(
    table: SpriteTable,
    facing: Facing,
    before: ActionPhase,
    after: ActionPhase,
) -> SpriteChoice {
    match (before, after) {
        (
            ActionPhase::Swinging { frame: f0, elapsed_us: e0, color: c0 },
            ActionPhase::Swinging { frame, elapsed_us, color },
        ) => if frame != f0 && swing_slot(facing, frame) < table.swing_len_of(color) {
            SpriteChoice::Swing { color, slot: swing_slot(facing, frame) as usize }
        } else {
            SpriteChoice::Keep
        },
        _ => SpriteChoice::Keep,
    }
}

/// The sprite of the walk cycle after a tick, if there is one to show.
pub open spec fn walk_choice(
    table: SpriteTable,
    facing: Facing,
    before: FrameClock,
    after: FrameClock,
) -> SpriteChoice {
    if before.frame < table.walk_len_of(facing) && after.frame < table.walk_len_of(facing) {
        SpriteChoice::Walk { facing, frame: after.frame }
    } else {
        SpriteChoice::Keep
    }
}

/// One tick of the player's animation. During a swing the swing's time
/// passes and the walk clock rests; otherwise the walk clock runs and the
/// player is unchanged.
pub fn animate_player(
    player: &mut PlayerState,
    clock: &mut FrameClock,
    table: &SpriteTable,
    delta_us: u32,
) -> (r: SpriteChoice)
    ensures
        old(player).phase is Swinging ==> {
            &&& *final(player) == (PlayerState {
                phase: old(player).phase.advanced(delta_us),
                ..*old(player)
            })
            &&& *final(clock) == *old(clock)
            &&& r == swing_choice(*table, old(player).facing, old(player).phase, final(player).phase)
        },
        old(player).phase is Idle ==> {
            &&& *final(player) == *old(player)
            &&& *final(clock) == old(clock).walked(
                old(player).moving,
                table.walk_len_of(old(player).facing),
                delta_us,
            )
            &&& r == walk_choice(*table, old(player).facing, *old(clock), *final(clock))
        },
        old(player).wf() ==> final(player).wf(),
{
    match player.phase {
        ActionPhase::Swinging { frame: before, .. } => {
            player.advance_swing(delta_us);
            match player.phase {
                ActionPhase::Swinging { frame, color, .. } => {
                    if frame != before {
                        match swing_sprite(table, player.facing, frame, color) {
                            Some(slot) => SpriteChoice::Swing { color, slot },
                            None => SpriteChoice::Keep,
                        }
                    } else {
                        SpriteChoice::Keep
                    }
                },
                ActionPhase::Idle => SpriteChoice::Keep,
            }
        },
        ActionPhase::Idle => {
            match clock.walk(player.moving, table.walk_len(player.facing), delta_us) {
                Some(frame) => SpriteChoice::Walk { facing: player.facing, frame },
                None => SpriteChoice::Keep,
            }
        },
    }
}

} // verus!
