//! Points and offsets of the playing field, in thousandths of a pixel.

use vstd::prelude::*;

verus! {

/// A point of the playing field. One pixel is 1000 units.
#[derive(Clone, Copy, Debug, PartialEq, Eq, Structural)]
pub struct Vec2 {
    pub x: i32,
    pub y: i32,
}

/// Squared Euclidean distance between two points.
pub open spec fn dist_sq(a: Vec2, b: Vec2) -> int {
    (a.x - b.x) * (a.x - b.x) + (a.y - b.y) * (a.y - b.y)
}

/// Whether `b` lies strictly inside the circle of the given radius round `a`.
pub open spec fn within(a: Vec2, b: Vec2, radius: nat) -> bool {
    dist_sq(a, b) < radius * radius
}

/// A coordinate held to the range of the playing field.
pub open spec fn clamp_coord(v: int) -> int {
    if v < i32::MIN {
        i32::MIN as int
    } else if v > i32::MAX {
        i32::MAX as int
    } else {
        v
    }
}

/// The point `p` moved by `(dx, dy)`, each coordinate held to the field.
pub open spec fn shifted(p: Vec2, dx: int, dy: int) -> Vec2 {
    Vec2 { x: clamp_coord(p.x + dx) as i32, y: clamp_coord(p.y + dy) as i32 }
}

/// Distance covered along one axis in `delta_us` microseconds at `speed`
/// pixels per second, where `unit` is that axis' share of the direction in
/// thousandths. Fractions of a unit are dropped, towards zero.
pub open spec fn step_of(unit: int, speed: nat, delta_us: nat) -> int {
    if unit >= 0 {
        (unit * (speed * delta_us)) / 1_000_000
    } else {
        -(((-unit) * (speed * delta_us)) / 1_000_000)
    }
}

/// The point `p` after moving along `unit` for `delta_us` microseconds.
pub open spec fn moved_along(p: Vec2, unit: Vec2, speed: nat, delta_us: nat) -> Vec2 {
    shifted(p, step_of(unit.x as int, speed, delta_us), step_of(unit.y as int, speed, delta_us))
}

fn clamp_to_coord(v: i128) -> (r: i32)
    ensures
        r as int == clamp_coord(v as int),
{
    if v < -2147483648i128 {
        i32::MIN
    } else if v > 2147483647i128 {
        i32::MAX
    } else {
        v as i32
    }
}

fn step_len(unit: i32, speed: u32, delta_us: u32) -> (r: i128)
    ensures
        r == step_of(unit as int, speed as nat, delta_us as nat),
        -0x1_0000_0000_0000_0000_0000_0000 <= r <= 0x1_0000_0000_0000_0000_0000_0000,
{
    let mag: u128 = if unit >= 0 {
        unit as u128
    } else {
        (-(unit as i64)) as u128
    };
    assert(speed * delta_us <= 0x1_0000_0000_0000_0000 && speed * delta_us >= 0)
        by (nonlinear_arith)
        requires
            0 <= speed <= 0x1_0000_0000,
            0 <= delta_us <= 0x1_0000_0000,
    ;
    let sd: u128 = speed as u128 * delta_us as u128;
    assert(mag * sd <= 0x1_0000_0000_0000_0000_0000_0000 && mag * sd >= 0) by (nonlinear_arith)
        requires
            0 <= mag <= 0x1_0000_0000,
            0 <= sd <= 0x1_0000_0000_0000_0000,
    ;
    let q: u128 = (mag * sd) / 1_000_000;
    if unit >= 0 {
        q as i128
    } else {
        -(q as i128)
    }
}

impl Vec2 {
    pub fn new(x: i32, y: i32) -> (r: Vec2)
        ensures
            r == (Vec2 { x, y }),
    {
        Vec2 { x, y }
    }

    pub fn zero() -> (r: Vec2)
        ensures
            r == (Vec2 { x: 0, y: 0 }),
    {
        Vec2 { x: 0, y: 0 }
    }

    /// Moves the point by an offset; a coordinate that would leave the field
    /// stays at the field's edge.
    pub fn offset(self, dx: i64, dy: i64) -> (r: Vec2)
        ensures
            r == shifted(self, dx as int, dy as int),
    {
        let nx: i128 = self.x as i128 + dx as i128;
        let ny: i128 = self.y as i128 + dy as i128;
        Vec2 { x: clamp_to_coord(nx), y: clamp_to_coord(ny) }
    }

    /// Moves the point along `unit`, a direction in thousandths, at `speed`
    /// pixels per second for `delta_us` microseconds.
    pub fn step_along(self, unit: Vec2, speed: u32, delta_us: u32) -> (r: Vec2)
        ensures
            r == moved_along(self, unit, speed as nat, delta_us as nat),
    {
        let sx: i128 = step_len(unit.x, speed, delta_us);
        let sy: i128 = step_len(unit.y, speed, delta_us);
        Vec2 { x: clamp_to_coord(self.x as i128 + sx), y: clamp_to_coord(self.y as i128 + sy) }
    }

    /// Circle test: is `other` at a distance strictly below `radius`?
    pub fn within_radius(self, other: Vec2, radius: u32) -> (r: bool)
        ensures
            r == within(self, other, radius as nat),
    {
        let dx: i128 = self.x as i128 - other.x as i128;
        let dy: i128 = self.y as i128 - other.y as i128;
        let rr: i128 = radius as i128;
        assert(dx * dx <= 0x1_0000_0000_0000_0000 && dx * dx >= 0) by (nonlinear_arith)
            requires
                -0x1_0000_0000 <= dx <= 0x1_0000_0000,
        ;
        assert(dy * dy <= 0x1_0000_0000_0000_0000 && dy * dy >= 0) by (nonlinear_arith)
            requires
                -0x1_0000_0000 <= dy <= 0x1_0000_0000,
        ;
        assert(rr * rr <= 0x1_0000_0000_0000_0000 && rr * rr >= 0) by (nonlinear_arith)
            requires
                0 <= rr <= 0x1_0000_0000,
        ;
        dx * dx + dy * dy < rr * rr
    }
}

} // verus!
