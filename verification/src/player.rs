//! The player: where it stands, which way it faces, and how the keys move it.

use vstd::prelude::*;
use crate::action::ActionPhase;
use crate::color::ColorId;
use crate::vector::{moved_along, shifted, Vec2};

verus! {

/// Walking speed in pixels per second.
pub const PLAYER_SPEED: u32 = 400;

/// Distance in pixels from the player to the centre of the swing's hit circle.
pub const SWORD_REACH: i64 = 50;

/// Length of a direction vector: directions are in thousandths.
pub const UNIT: i32 = 1000;

/// Share of each axis in a diagonal direction, in thousandths.
pub const DIAGONAL: i32 = 707;

/// The four ways the player can face.
#[derive(Clone, Copy, Debug, PartialEq, Eq, Structural)]
pub enum Facing {
    Up,
    Down,
    Left,
    Right,
}

/// Which direction keys are held, an arrow key and its letter taken as one.
#[derive(Clone, Copy, Debug, PartialEq, Eq, Structural)]
pub struct KeyState {
    pub up: bool,
    pub down: bool,
    pub left: bool,
    pub right: bool,
}

impl KeyState {
    /// Net input along the horizontal axis: -1, 0 or 1.
    pub open spec fn axis_x(self) -> int {
        (if self.right { 1int } else { 0int }) - (if self.left { 1int } else { 0int })
    }

    /// Net input along the vertical axis: -1, 0 or 1.
    pub open spec fn axis_y(self) -> int {
        (if self.up { 1int } else { 0int }) - (if self.down { 1int } else { 0int })
    }

    pub open spec fn any(self) -> bool {
        self.up || self.down || self.left || self.right
    }

    /// The keys are read in the order up, down, left, right, and the last one
    /// found held decides the facing; with none held the facing stays.
    pub open spec fn facing_from(self, before: Facing) -> Facing {
        if self.right {
            Facing::Right
        } else if self.left {
            Facing::Left
        } else if self.down {
            Facing::Down
        } else if self.up {
            Facing::Up
        } else {
            before
        }
    }

    /// The direction of the net input, of length one: an axis at 1000, a
    /// diagonal at 707 on each axis.
    pub open spec fn direction(self) -> Vec2 {
        let ax = self.axis_x();
        let ay = self.axis_y();
        if ax != 0 && ay != 0 {
            Vec2 { x: (ax * DIAGONAL) as i32, y: (ay * DIAGONAL) as i32 }
        } else {
            Vec2 { x: (ax * UNIT) as i32, y: (ay * UNIT) as i32 }
        }
    }

    pub fn resolve_facing(self, before: Facing) -> (r: Facing)
        ensures
            r == self.facing_from(before),
    {
        let mut f: Facing = before;
        if self.up {
            f = Facing::Up;
        }
        if self.down {
            f = Facing::Down;
        }
        if self.left {
            f = Facing::Left;
        }
        if self.right {
            f = Facing::Right;
        }
        f
    }

    /// The direction of the net input, or `None` where the keys cancel out or
    /// none is held.
    pub fn resolve_direction(self) -> (r: Option<Vec2>)
        ensures
            self.axis_x() == 0 && self.axis_y() == 0 ==> r is None,
            self.axis_x() != 0 || self.axis_y() != 0 ==> r == Some(self.direction()),
    {
        let mut ax: i32 = 0;
        let mut ay: i32 = 0;
        if self.up {
            ay = ay + 1;
        }
        if self.down {
            ay = ay - 1;
        }
        if self.left {
            ax = ax - 1;
        }
        if self.right {
            ax = ax + 1;
        }
        if ax == 0 && ay == 0 {
            None
        } else if ax != 0 && ay != 0 {
            Some(Vec2 { x: ax * DIAGONAL, y: ay * DIAGONAL })
        } else {
            Some(Vec2 { x: ax * UNIT, y: ay * UNIT })
        }
    }
}

/// The player's state. There is one for the whole session.
#[derive(Clone, Copy, Debug, PartialEq, Eq, Structural)]
pub struct PlayerState {
    pub position: Vec2,
    pub facing: Facing,
    pub moving: bool,
    /// Direction of the last movement, in thousandths; the swing's hit circle
    /// is placed along it, also while the player stands still.
    pub last_direction: Vec2,
    pub phase: ActionPhase,
    /// Colour of the next swing: that of the item picked up last.
    pub swing_color: ColorId,
}

impl PlayerState {
    /// The swing in progress, if any, is a valid one and has the player's colour.
    pub open spec fn wf(self) -> bool {
        &&& self.phase.wf()
        &&& match self.phase {
            ActionPhase::Idle => true,
            ActionPhase::Swinging { frame, elapsed_us, color } => color == self.swing_color,
        }
    }

    /// The player at the start of a session: at the origin, facing right,
    /// idle, with a blue swing.
    pub open spec fn initial() -> PlayerState {
        PlayerState {
            position: Vec2 { x: 0, y: 0 },
            facing: Facing::Right,
            moving: false,
            last_direction: Vec2 { x: 1000, y: 0 },
            phase: ActionPhase::Idle,
            swing_color: ColorId::Blue,
        }
    }

    /// The player after one tick of direction input. During a swing the keys
    /// are not read at all. Otherwise the facing follows the keys, the player
    /// counts as moving when any key is held, and where the keys leave a net
    /// direction the player walks along it, and remembers it.
    pub open spec fn after_input(self, keys: KeyState, delta_us: u32) -> PlayerState {
        if self.phase is Swinging {
            self
        } else if keys.axis_x() == 0 && keys.axis_y() == 0 {
            PlayerState { facing: keys.facing_from(self.facing), moving: keys.any(), ..self }
        } else {
            PlayerState {
                facing: keys.facing_from(self.facing),
                moving: keys.any(),
                position: moved_along(
                    self.position,
                    keys.direction(),
                    PLAYER_SPEED as nat,
                    delta_us as nat,
                ),
                last_direction: keys.direction(),
                ..self
            }
        }
    }

    /// Centre of the swing's hit circle: fifty pixels from the player along
    /// the direction of the last movement.
    pub open spec fn anchor(self) -> Vec2 {
        shifted(
            self.position,
            self.last_direction.x * SWORD_REACH,
            self.last_direction.y * SWORD_REACH,
        )
    }

    pub fn new() -> (r: PlayerState)
        ensures
            r == PlayerState::initial(),
            r.wf(),
    {
        PlayerState {
            position: Vec2 { x: 0, y: 0 },
            facing: Facing::Right,
            moving: false,
            last_direction: Vec2 { x: 1000, y: 0 },
            phase: ActionPhase::Idle,
            swing_color: ColorId::Blue,
        }
    }

    /// Reads the direction keys for one tick of `delta_us` microseconds.
    pub fn apply_input(&mut self, keys: KeyState, delta_us: u32)
        ensures
            *final(self) == old(self).after_input(keys, delta_us),
            old(self).wf() ==> final(self).wf(),
    {
        if self.phase.is_swinging() {
            return ;
        }
        self.facing = keys.resolve_facing(self.facing);
        self.moving = keys.up || keys.down || keys.left || keys.right;
        match keys.resolve_direction() {
            Some(dir) => {
                self.position = self.position.step_along(dir, PLAYER_SPEED, delta_us);
                self.last_direction = dir;
            },
            None => {},
        }
    }

    /// Reads the attack key: a press while idle starts a swing in the
    /// player's colour at its first frame; during a swing it does nothing.
    pub fn start_swing(&mut self, attack_pressed: bool)
        ensures
            *final(self) == (PlayerState {
                phase: old(self).phase.triggered(attack_pressed, old(self).swing_color),
                ..*old(self)
            }),
            old(self).wf() ==> final(self).wf(),
    {
        self.phase = self.phase.trigger(attack_pressed, self.swing_color);
    }

    /// Lets `delta_us` microseconds of a swing pass.
    pub fn advance_swing(&mut self, delta_us: u32)
        ensures
            *final(self) == (PlayerState {
                phase: old(self).phase.advanced(delta_us),
                ..*old(self)
            }),
            old(self).wf() ==> final(self).wf(),
    {
        self.phase = self.phase.advance(delta_us);
    }

    /// Takes the colour of an item just picked up: the next swing has it, and
    /// so has a swing in progress.
    pub fn take_color(&mut self, c: ColorId)
        ensures
            *final(self) == (PlayerState {
                phase: old(self).phase.recolored(c),
                swing_color: c,
                ..*old(self)
            }),
            old(self).wf() ==> final(self).wf(),
    {
        self.phase = self.phase.recolor(c);
        self.swing_color = c;
    }

    pub fn hit_anchor(&self) -> (r: Vec2)
        ensures
            r == self.anchor(),
    {
        let dx: i64 = self.last_direction.x as i64 * SWORD_REACH;
        let dy: i64 = self.last_direction.y as i64 * SWORD_REACH;
        self.position.offset(dx, dy)
    }
}

/// Keys that cancel each other out, or no key at all, leave the player where
/// it is and leave the remembered direction of movement as it was.
pub proof fn no_net_input_no_movement(p: PlayerState, keys: KeyState, delta_us: u32)
    requires
        keys.axis_x() == 0,
        keys.axis_y() == 0,
    ensures
        p.after_input(keys, delta_us).position == p.position,
        p.after_input(keys, delta_us).last_direction == p.last_direction,
{
}

/// During a swing the direction keys change nothing.
pub proof fn input_ignored_while_swinging(p: PlayerState, keys: KeyState, delta_us: u32)
    requires
        p.phase is Swinging,
    ensures
        p.after_input(keys, delta_us) == p,
{
}

} // verus!
