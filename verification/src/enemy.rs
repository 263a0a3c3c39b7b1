//! Enemies walk straight at the player.

use vstd::prelude::*;
use crate::vector::{moved_along, Vec2};

verus! {

/// Walking speed of an enemy in pixels per second.
pub const ENEMY_SPEED: u32 = 100;

/// `r` is the square root of `n` with its fraction dropped.
pub open spec fn is_root(n: nat, r: nat) -> bool {
    r * r <= n && n < (r + 1) * (r + 1)
}

/// The square root of `n` with its fraction dropped.
pub open spec fn root(n: nat) -> nat {
    choose|r: nat| is_root(n, r)
}

/// A number has one whole root.
pub proof fn root_unique(n: nat, a: nat, b: nat)
    requires
        is_root(n, a),
        is_root(n, b),
    ensures
        a == b,
{
    assert(a == b) by (nonlinear_arith)
        requires
            a * a <= n,
            n < (a + 1) * (a + 1),
            b * b <= n,
            n < (b + 1) * (b + 1),
    ;
}

/// A square below the square of `r + 1` is at most the square of `r`.
pub proof fn square_below_next(d: int, r: nat)
    requires
        d * d < (r + 1) * (r + 1),
    ensures
        d * d <= r * r,
{
    if d > r {
        assert(d * d >= (r + 1) * (r + 1)) by (nonlinear_arith)
            requires
                d >= r + 1,
                r >= 0,
        ;
    } else if d < -r {
        assert(d * d >= (r + 1) * (r + 1)) by (nonlinear_arith)
            requires
                -d >= r + 1,
                r >= 0,
        ;
    } else {
        assert(d * d <= r * r) by (nonlinear_arith)
            requires
                -r <= d <= r,
        ;
    }
}

/// Share of one axis in the direction of a line of length `len`, in
/// thousandths, the fraction dropped towards zero.
pub open spec fn share(d: int, len: nat) -> int {
    if d >= 0 {
        (d * 1000) / (len as int)
    } else {
        -(((-d) * 1000) / (len as int))
    }
}

/// The direction from `from` to `to`, of length one, in thousandths. Where
/// the two points are the same there is no direction: the result is zero.
pub open spec fn unit_toward(from: Vec2, to: Vec2) -> Vec2 {
    let dx = to.x - from.x;
    let dy = to.y - from.y;
    let len = root((dx * dx + dy * dy) as nat);
    if len == 0 {
        Vec2 { x: 0, y: 0 }
    } else {
        Vec2 { x: share(dx, len) as i32, y: share(dy, len) as i32 }
    }
}

/// An enemy at `from` after walking towards `to` for `delta_us` microseconds.
pub open spec fn pursued(from: Vec2, to: Vec2, delta_us: u32) -> Vec2 {
    moved_along(from, unit_toward(from, to), ENEMY_SPEED as nat, delta_us as nat)
}

fn whole_root(n: u128) -> (r: u128)
    requires
        n <= 0x2_0000_0000_0000_0000,
    ensures
        is_root(n as nat, r as nat),
        r == root(n as nat),
        r <= 0x2_0000_0000,
{
    let mut lo: u128 = 0;
    let mut hi: u128 = 0x2_0000_0000;
    assert(hi * hi > n) by (nonlinear_arith)
        requires
            hi == 0x2_0000_0000,
            n <= 0x2_0000_0000_0000_0000,
    ;
    while hi - lo > 1
        invariant
            lo < hi <= 0x2_0000_0000,
            lo * lo <= n,
            n < hi * hi,
        decreases hi - lo,
    {
        let mid: u128 = lo + (hi - lo) / 2;
        assert(mid * mid <= 0x4_0000_0000_0000_0000) by (nonlinear_arith)
            requires
                0 <= mid <= 0x2_0000_0000,
        ;
        if mid * mid <= n {
            lo = mid;
        } else {
            hi = mid;
        }
    }
    proof {
        assert(is_root(n as nat, lo as nat));
        root_unique(n as nat, lo as nat, root(n as nat));
    }
    lo
}

fn axis_share(d: i64, len: u128) -> (r: i32)
    requires
        -0x1_0000_0000 <= d <= 0x1_0000_0000,
        0 < len <= 0x2_0000_0000,
        d * d <= len * len,
    ensures
        r == share(d as int, len as nat),
        -1000 <= r <= 1000,
{
    let mag: u128 = if d >= 0 {
        d as u128
    } else {
        (-d) as u128
    };
    assert(mag * mag == d * d) by (nonlinear_arith)
        requires
            mag == d || mag == -d,
    ;
    assert(mag <= len) by (nonlinear_arith)
        requires
            mag * mag <= len * len,
            mag >= 0,
            len > 0,
    ;
    let q: u128 = (mag * 1000) / len;
    assert(q <= 1000) by (nonlinear_arith)
        requires
            q == (mag * 1000) / (len as int),
            0 <= mag <= len,
            len > 0,
    ;
    if d >= 0 {
        q as i32
    } else {
        -(q as i32)
    }
}

/// The direction from `from` to `to`, or zero where they are the same point.
pub fn direction_toward(from: Vec2, to: Vec2) -> (r: Vec2)
    ensures
        r == unit_toward(from, to),
        -1000 <= r.x <= 1000,
        -1000 <= r.y <= 1000,
{
    let dx: i64 = to.x as i64 - from.x as i64;
    let dy: i64 = to.y as i64 - from.y as i64;
    assert(0 <= dx * dx <= 0x1_0000_0000_0000_0000) by (nonlinear_arith)
        requires
            -0x1_0000_0000 <= dx <= 0x1_0000_0000,
    ;
    assert(0 <= dy * dy <= 0x1_0000_0000_0000_0000) by (nonlinear_arith)
        requires
            -0x1_0000_0000 <= dy <= 0x1_0000_0000,
    ;
    let sx: u128 = (dx as i128 * dx as i128) as u128;
    let sy: u128 = (dy as i128 * dy as i128) as u128;
    let n: u128 = sx + sy;
    let len: u128 = whole_root(n);
    if len == 0 {
        Vec2 { x: 0, y: 0 }
    } else {
        proof {
            square_below_next(dx as int, len as nat);
            square_below_next(dy as int, len as nat);
        }
        Vec2 { x: axis_share(dx, len), y: axis_share(dy, len) }
    }
}

/// One enemy's step towards the player. An enemy that stands on the player
/// does not move.
pub fn step_toward(from: Vec2, to: Vec2, delta_us: u32) -> (r: Vec2)
    ensures
        r == pursued(from, to, delta_us),
{
    let unit: Vec2 = direction_toward(from, to);
    from.step_along(unit, ENEMY_SPEED, delta_us)
}

/// Moves every enemy one step towards the player.
pub fn move_enemies(enemies: &mut Vec<Vec2>, player: Vec2, delta_us: u32)
    ensures
        final(enemies)@.len() == old(enemies)@.len(),
        forall|i: int|
            0 <= i < old(enemies)@.len() ==> #[trigger] final(enemies)@[i] == pursued(
                old(enemies)@[i],
                player,
                delta_us,
            ),
{
    let n: usize = enemies.len();
    let mut i: usize = 0;
    while i < n
        invariant
            n == enemies@.len(),
            n == old(enemies)@.len(),
            i <= n,
            forall|k: int|
                0 <= k < i ==> #[trigger] enemies@[k] == pursued(old(enemies)@[k], player, delta_us),
            forall|k: int| i <= k < n ==> #[trigger] enemies@[k] == old(enemies)@[k],
        decreases n - i,
    {
        let e: Vec2 = enemies[i];
        enemies.set(i, step_toward(e, player, delta_us));
        i = i + 1;
    }
}

/// An enemy that has reached the player stays where it is.
pub proof fn enemy_on_player_stays(p: Vec2, delta_us: u32)
    ensures
        pursued(p, p, delta_us) == p,
{
    assert(is_root(0, 0)) by (nonlinear_arith);
    root_unique(0, 0, root(0));
}

} // verus!
