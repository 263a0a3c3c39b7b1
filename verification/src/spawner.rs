//! Enemies appear every two seconds, just outside one of the four edges of
//! the screen.

use vstd::prelude::*;
use crate::chance::{random_byte, random_word};
use crate::vector::Vec2;

verus! {

/// Time between two enemies, in microseconds.
pub const SPAWN_INTERVAL_US: u64 = 2_000_000;

/// Width of the screen, in thousandths of a pixel.
pub const SCREEN_WIDTH: i32 = 1_000_000;

/// Height of the screen, in thousandths of a pixel.
pub const SCREEN_HEIGHT: i32 = 800_000;

/// How far outside the screen an enemy appears, in thousandths of a pixel.
pub const SPAWN_MARGIN: i32 = 50_000;

/// The point is outside the screen.
pub open spec fn off_screen(p: Vec2) -> bool {
    p.x < -(SCREEN_WIDTH / 2) || p.x > SCREEN_WIDTH / 2 || p.y < -(SCREEN_HEIGHT / 2) || p.y
        > SCREEN_HEIGHT / 2
}

/// Where an enemy appears for two random numbers. The first picks the edge
/// by its remainder modulo four: top, bottom, left, right. The second picks
/// the place along that edge. The point lies a margin outside the edge.
pub open spec fn spawn_point(edge_roll: u8, along_roll: u32) -> Vec2 {
    let edge = edge_roll % 4;
    if edge == 0 {
        Vec2 {
            x: (along_roll % 1_000_000 - 500_000) as i32,
            y: 450_000,
        }
    } else if edge == 1 {
        Vec2 {
            x: (along_roll % 1_000_000 - 500_000) as i32,
            y: -450_000i32,
        }
    } else if edge == 2 {
        Vec2 {
            x: -550_000i32,
            y: (along_roll % 800_000 - 400_000) as i32,
        }
    } else {
        Vec2 {
            x: 550_000,
            y: (along_roll % 800_000 - 400_000) as i32,
        }
    }
}

/// Computes the place where an enemy appears from two random numbers.
pub fn spawn_position(edge_roll: u8, along_roll: u32) -> (r: Vec2)
    ensures
        r == spawn_point(edge_roll, along_roll),
        off_screen(r),
{
    let edge: u8 = edge_roll % 4;
    let half_w: i32 = SCREEN_WIDTH / 2;
    let half_h: i32 = SCREEN_HEIGHT / 2;
    let along_w: i32 = (along_roll % 1_000_000) as i32 - half_w;
    let along_h: i32 = (along_roll % 800_000) as i32 - half_h;
    if edge == 0 {
        Vec2 { x: along_w, y: half_h + SPAWN_MARGIN }
    } else if edge == 1 {
        Vec2 { x: along_w, y: -half_h - SPAWN_MARGIN }
    } else if edge == 2 {
        Vec2 { x: -half_w - SPAWN_MARGIN, y: along_h }
    } else {
        Vec2 { x: half_w + SPAWN_MARGIN, y: along_h }
    }
}

/// The timer that decides when the next enemy appears.
#[derive(Clone, Copy, Debug, PartialEq, Eq, Structural)]
pub struct Spawner {
    pub elapsed_us: u64,
}

impl Spawner {
    /// The interval is over once `delta_us` more microseconds have passed.
    pub open spec fn fires(self, delta_us: u32) -> bool {
        self.elapsed_us + delta_us >= SPAWN_INTERVAL_US
    }

    /// The timer after a tick: back at zero when it fired, else further on.
    pub open spec fn ticked(self, delta_us: u32) -> Spawner {
        if self.fires(delta_us) {
            Spawner { elapsed_us: 0 }
        } else {
            Spawner { elapsed_us: (self.elapsed_us + delta_us) as u64 }
        }
    }

    pub fn new() -> (r: Spawner)
        ensures
            r == (Spawner { elapsed_us: 0 }),
    {
        Spawner { elapsed_us: 0 }
    }

    /// Lets `delta_us` microseconds pass and says whether an enemy is due.
    pub fn tick(&mut self, delta_us: u32) -> (fire: bool)
        ensures
            fire == old(self).fires(delta_us),
            *final(self) == old(self).ticked(delta_us),
    {
        let total: u128 = self.elapsed_us as u128 + delta_us as u128;
        if total >= 2_000_000 {
            self.elapsed_us = 0;
            true
        } else {
            self.elapsed_us = total as u64;
            false
        }
    }

    /// One tick of the spawner. When the interval is over, one enemy appears
    /// at a random place outside the screen and is added to `enemies`;
    /// otherwise the enemies are unchanged. There is no limit on how many
    /// enemies there can be.
    pub fn spawn(&mut self, enemies: &mut Vec<Vec2>, delta_us: u32) -> (fire: bool)
        ensures
            fire == old(self).fires(delta_us),
            *final(self) == old(self).ticked(delta_us),
            !fire ==> final(enemies)@ == old(enemies)@,
            fire ==> final(enemies)@.len() == old(enemies)@.len() + 1
                && final(enemies)@.drop_last() == old(enemies)@
                && off_screen(final(enemies)@.last())
                && exists|edge: u8, along: u32|
                    final(enemies)@.last() == spawn_point(edge, along),
    {
        if self.tick(delta_us) {
            let edge: u8 = random_byte();
            let along: u32 = random_word();
            let p: Vec2 = spawn_position(edge, along);
            enemies.push(p);
            assert(enemies@.drop_last() =~= old(enemies)@);
            true
        } else {
            false
        }
    }
}

} // verus!
