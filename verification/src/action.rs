//! The swing state machine: idle, or swinging through four frames of one
//! twelfth of a second each.

use vstd::prelude::*;
use crate::color::ColorId;

verus! {

/// Number of frames of a swing.
pub const SWING_FRAMES: u8 = 4;

/// Frames shown per second while swinging.
pub const SWING_FPS: u64 = 12;

/// Microseconds in a second.
pub const MICROS_PER_SECOND: u64 = 1_000_000;

/// The player's combat state.
#[derive(Clone, Copy, Debug, PartialEq, Eq, Structural)]
pub enum ActionPhase {
    Idle,
    Swinging { frame: u8, elapsed_us: u64, color: ColorId },
}

/// One step of simulated time: the time that passed and whether the attack
/// key went down in it.
#[derive(Clone, Copy, Debug, PartialEq, Eq, Structural)]
pub struct Tick {
    pub delta_us: u32,
    pub attack: bool,
}

impl ActionPhase {
    /// A swing shows one of its four frames and has not yet used up the
    /// frame's time.
    pub open spec fn wf(self) -> bool {
        match self {
            ActionPhase::Idle => true,
            ActionPhase::Swinging { frame, elapsed_us, color } => {
                frame < SWING_FRAMES && elapsed_us * SWING_FPS < MICROS_PER_SECOND
            },
        }
    }

    /// The frames in which a swing can hit: the second and the third.
    pub open spec fn active(self) -> bool {
        match self {
            ActionPhase::Idle => false,
            ActionPhase::Swinging { frame, elapsed_us, color } => frame == 1 || frame == 2,
        }
    }

    /// The phase after the attack input: a swing starts only from idle, on a
    /// press; anything else leaves the phase as it is.
    pub open spec fn triggered(self, attack: bool, color: ColorId) -> ActionPhase {
        match self {
            ActionPhase::Idle => if attack {
                ActionPhase::Swinging { frame: 0, elapsed_us: 0, color }
            } else {
                ActionPhase::Idle
            },
            ActionPhase::Swinging { frame, elapsed_us, color: c } => self,
        }
    }

    /// The phase after `delta_us` microseconds. A frame that has had a
    /// twelfth of a second gives way to the next with its time at zero; after
    /// the last frame the machine is idle.
    pub open spec fn advanced(self, delta_us: u32) -> ActionPhase {
        match self {
            ActionPhase::Idle => ActionPhase::Idle,
            ActionPhase::Swinging { frame, elapsed_us, color } => {
                if (elapsed_us + delta_us) * SWING_FPS >= MICROS_PER_SECOND {
                    if frame + 1 >= SWING_FRAMES {
                        ActionPhase::Idle
                    } else {
                        ActionPhase::Swinging { frame: (frame + 1) as u8, elapsed_us: 0, color }
                    }
                } else {
                    ActionPhase::Swinging {
                        frame,
                        elapsed_us: (elapsed_us + delta_us) as u64,
                        color,
                    }
                }
            },
        }
    }

    /// The phase with the swing recoloured; idle stays idle.
    pub open spec fn recolored(self, c: ColorId) -> ActionPhase {
        match self {
            ActionPhase::Idle => ActionPhase::Idle,
            ActionPhase::Swinging { frame, elapsed_us, color } => ActionPhase::Swinging {
                frame,
                elapsed_us,
                color: c,
            },
        }
    }

    /// One tick: time passes, then the attack input is read.
    pub open spec fn after_tick(self, t: Tick, color: ColorId) -> ActionPhase {
        self.advanced(t.delta_us).triggered(t.attack, color)
    }

    /// The phase after a sequence of ticks, first tick first.
    pub open spec fn run(self, ticks: Seq<Tick>, color: ColorId) -> ActionPhase
        decreases ticks.len(),
    {
        if ticks.len() == 0 {
            self
        } else {
            self.run(ticks.drop_last(), color).after_tick(ticks.last(), color)
        }
    }

    pub fn is_swinging(self) -> (r: bool)
        ensures
            r == (self is Swinging),
    {
        match self {
            ActionPhase::Idle => false,
            ActionPhase::Swinging { .. } => true,
        }
    }

    /// Whether a swing is in a frame that can hit.
    pub fn is_active(self) -> (r: bool)
        ensures
            r == self.active(),
    {
        match self {
            ActionPhase::Idle => false,
            ActionPhase::Swinging { frame, .. } => frame == 1 || frame == 2,
        }
    }

    /// Reads the attack input. Pressing attack during a swing does nothing:
    /// the press is neither queued nor does it restart the swing.
    pub fn trigger(self, attack: bool, color: ColorId) -> (r: ActionPhase)
        ensures
            r == self.triggered(attack, color),
            self.wf() ==> r.wf(),
    {
        match self {
            ActionPhase::Idle => {
                if attack {
                    ActionPhase::Swinging { frame: 0, elapsed_us: 0, color }
                } else {
                    ActionPhase::Idle
                }
            },
            ActionPhase::Swinging { .. } => self,
        }
    }

    /// Lets `delta_us` microseconds pass.
    pub fn advance(self, delta_us: u32) -> (r: ActionPhase)
        ensures
            r == self.advanced(delta_us),
            self.wf() ==> r.wf(),
    {
        match self {
            ActionPhase::Idle => ActionPhase::Idle,
            ActionPhase::Swinging { frame, elapsed_us, color } => {
                let total: u128 = elapsed_us as u128 + delta_us as u128;
                if total * 12 >= 1_000_000 {
                    if frame >= 3 {
                        ActionPhase::Idle
                    } else {
                        ActionPhase::Swinging { frame: frame + 1, elapsed_us: 0, color }
                    }
                } else {
                    ActionPhase::Swinging { frame, elapsed_us: total as u64, color }
                }
            },
        }
    }

    /// One tick of the machine: time passes, then the attack key is read.
    pub fn tick(self, t: Tick, color: ColorId) -> (r: ActionPhase)
        ensures
            r == self.after_tick(t, color),
            self.wf() ==> r.wf(),
    {
        self.advance(t.delta_us).trigger(t.attack, color)
    }

    /// Gives a swing in progress another colour.
    pub fn recolor(self, c: ColorId) -> (r: ActionPhase)
        ensures
            r == self.recolored(c),
            self.wf() ==> r.wf(),
            r.active() == self.active(),
    {
        match self {
            ActionPhase::Idle => ActionPhase::Idle,
            ActionPhase::Swinging { frame, elapsed_us, .. } => ActionPhase::Swinging {
                frame,
                elapsed_us,
                color: c,
            },
        }
    }
}

/// Whatever the ticks, a machine that starts idle is idle or shows one of the
/// four frames of a swing.
pub proof fn frame_stays_in_range(ticks: Seq<Tick>, color: ColorId)
    ensures
        ActionPhase::Idle.run(ticks, color).wf(),
        match ActionPhase::Idle.run(ticks, color) {
            ActionPhase::Idle => true,
            ActionPhase::Swinging { frame, elapsed_us, color: c } => frame <= 3,
        },
    decreases ticks.len(),
{
    if ticks.len() > 0 {
        frame_stays_in_range(ticks.drop_last(), color);
    }
}

/// Until the attack key is pressed for the first time the machine is idle.
pub proof fn idle_before_first_swing(ticks: Seq<Tick>, color: ColorId)
    requires
        forall|i: int| 0 <= i < ticks.len() ==> !(#[trigger] ticks[i]).attack,
    ensures
        ActionPhase::Idle.run(ticks, color) == ActionPhase::Idle,
    decreases ticks.len(),
{
    if ticks.len() > 0 {
        idle_before_first_swing(ticks.drop_last(), color);
    }
}

/// When the last frame has had its time, the machine is idle again, and a
/// press in that very tick starts the next swing at its first frame.
pub proof fn idle_after_last_frame(elapsed_us: u64, color: ColorId, t: Tick)
    requires
        (elapsed_us + t.delta_us) * SWING_FPS >= MICROS_PER_SECOND,
    ensures
        (ActionPhase::Swinging { frame: 3, elapsed_us, color }).advanced(t.delta_us)
            == ActionPhase::Idle,
        (ActionPhase::Swinging { frame: 3, elapsed_us, color }).after_tick(t, color) == if t.attack {
            ActionPhase::Swinging { frame: 0, elapsed_us: 0, color }
        } else {
            ActionPhase::Idle
        },
{
}

/// A swing that is still under way after a tick's time has passed ignores
/// the attack key of that tick.
pub proof fn swing_is_not_restarted(p: ActionPhase, t: Tick, color: ColorId)
    requires
        p.advanced(t.delta_us) is Swinging,
    ensures
        p.after_tick(t, color) == p.advanced(t.delta_us),
{
}

} // verus!
