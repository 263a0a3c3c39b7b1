use sword_arena::action::ActionPhase;
use sword_arena::animation::{animate_player, swing_sprite, FrameClock, SpriteChoice, SpriteTable};
use sword_arena::color::ColorId;
use sword_arena::enemy::{direction_toward, move_enemies, step_toward};
use sword_arena::player::{Facing, PlayerState};
use sword_arena::spawner::{spawn_position, Spawner};
use sword_arena::vector::Vec2;

fn full_table() -> SpriteTable {
    SpriteTable {
        walk_up: 2,
        walk_down: 2,
        walk_left: 2,
        walk_right: 2,
        swing_red: 16,
        swing_blue: 16,
        swing_green: 16,
    }
}

fn empty_table() -> SpriteTable {
    SpriteTable {
        walk_up: 0,
        walk_down: 0,
        walk_left: 0,
        walk_right: 0,
        swing_red: 0,
        swing_blue: 0,
        swing_green: 0,
    }
}

#[test]
fn spawner_fires_every_two_seconds() {
    let mut s = Spawner::new();
    assert!(!s.tick(1_999_999));
    assert_eq!(s.elapsed_us, 1_999_999);
    assert!(s.tick(1));
    assert_eq!(s.elapsed_us, 0);
    assert!(!s.tick(1_000_000));
    assert!(s.tick(4_000_000));
    assert_eq!(s.elapsed_us, 0);
}

#[test]
fn spawner_adds_one_enemy_outside_the_screen() {
    let mut s = Spawner::new();
    let mut enemies: Vec<Vec2> = vec![Vec2::new(1, 2)];
    assert!(!s.spawn(&mut enemies, 1_000_000));
    assert_eq!(enemies, vec![Vec2::new(1, 2)]);
    for round in 0..40usize {
        assert!(s.spawn(&mut enemies, 2_000_000));
        assert_eq!(enemies.len(), round + 2);
        assert_eq!(enemies[0], Vec2::new(1, 2));
        let p = enemies[round + 1];
        let on_top_or_bottom = (p.y == 450_000 || p.y == -450_000) && p.x >= -500_000 && p.x < 500_000;
        let on_side = (p.x == 550_000 || p.x == -550_000) && p.y >= -400_000 && p.y < 400_000;
        assert!(on_top_or_bottom || on_side);
    }
}

#[test]
fn spawn_position_for_each_edge() {
    assert_eq!(spawn_position(0, 0), Vec2::new(-500_000, 450_000));
    assert_eq!(spawn_position(4, 999_999), Vec2::new(499_999, 450_000));
    assert_eq!(spawn_position(1, 1_250_000), Vec2::new(-250_000, -450_000));
    assert_eq!(spawn_position(6, 1_500_000), Vec2::new(-550_000, 300_000));
    assert_eq!(spawn_position(255, 400_000), Vec2::new(550_000, 0));
}

#[test]
fn enemy_walks_toward_player() {
    let from = Vec2::new(0, 0);
    let to = Vec2::new(3_000, 4_000);
    assert_eq!(direction_toward(from, to), Vec2::new(600, 800));
    assert_eq!(step_toward(from, to, 1_000_000), Vec2::new(60_000, 80_000));
    assert_eq!(direction_toward(to, from), Vec2::new(-600, -800));
    assert_eq!(step_toward(Vec2::new(100_000, 0), from, 500_000), Vec2::new(50_000, 0));
    assert_eq!(direction_toward(from, Vec2::new(1, 1)), Vec2::new(1000, 1000));
    assert_eq!(direction_toward(from, Vec2::new(1_000_000, 1_000_000)), Vec2::new(707, 707));
}

#[test]
fn enemy_on_player_does_not_move() {
    let at = Vec2::new(12_345, -6_789);
    assert_eq!(direction_toward(at, at), Vec2::new(0, 0));
    assert_eq!(step_toward(at, at, 1_000_000), at);
    assert_eq!(step_toward(at, at, u32::MAX), at);
}

#[test]
fn enemy_direction_at_the_ends_of_the_field() {
    let a = Vec2::new(i32::MIN, i32::MIN);
    let b = Vec2::new(i32::MAX, i32::MAX);
    assert_eq!(direction_toward(a, b), Vec2::new(707, 707));
    assert_eq!(direction_toward(b, a), Vec2::new(-707, -707));
    assert_eq!(direction_toward(Vec2::new(i32::MIN, 0), Vec2::new(i32::MAX, 0)), Vec2::new(1000, 0));
}

#[test]
fn all_enemies_move_in_one_call() {
    let player = Vec2::new(0, 0);
    let mut enemies = vec![Vec2::new(100_000, 0), player, Vec2::new(0, -200_000)];
    move_enemies(&mut enemies, player, 100_000);
    assert_eq!(enemies, vec![Vec2::new(90_000, 0), player, Vec2::new(0, -190_000)]);
    let mut none: Vec<Vec2> = Vec::new();
    move_enemies(&mut none, player, 100_000);
    assert!(none.is_empty());
}

#[test]
fn swing_sprite_slots() {
    let t = full_table();
    assert_eq!(swing_sprite(&t, Facing::Up, 0, ColorId::Red), Some(0));
    assert_eq!(swing_sprite(&t, Facing::Down, 3, ColorId::Blue), Some(7));
    assert_eq!(swing_sprite(&t, Facing::Left, 2, ColorId::Green), Some(10));
    assert_eq!(swing_sprite(&t, Facing::Right, 1, ColorId::Red), Some(13));
    assert_eq!(swing_sprite(&t, Facing::Right, 4, ColorId::Red), None);
    assert_eq!(swing_sprite(&t, Facing::Up, 255, ColorId::Red), None);
    assert_eq!(swing_sprite(&empty_table(), Facing::Up, 0, ColorId::Red), None);
    assert_eq!(t.walk_len(Facing::Left), 2);
    assert_eq!(t.swing_len(ColorId::Green), 16);
}

#[test]
fn enemy_cycle_runs_at_six_frames_a_second() {
    let mut c = FrameClock::enemy();
    assert_eq!(c.cycle(2, 166_666), None);
    assert_eq!(c.frame, 0);
    assert_eq!(c.timer_us, 166_666);
    assert_eq!(c.cycle(2, 1), Some(1));
    assert_eq!(c.timer_us, 0);
    assert_eq!(c.cycle(2, 200_000), Some(0));
    assert_eq!(c.cycle(1, 200_000), None);
    assert_eq!(c.frame, 1);
}

#[test]
fn clock_without_frames_or_rate_is_harmless() {
    let mut c = FrameClock { frame: 0, timer_us: 0, frames_per_second: 6, total_frames: 0 };
    assert_eq!(c.cycle(2, 1_000_000), Some(0));
    assert_eq!(c.frame, 0);
    let mut still = FrameClock { frame: 1, timer_us: u64::MAX - 1, frames_per_second: 0, total_frames: 2 };
    assert_eq!(still.cycle(2, 10), None);
    assert_eq!(still.timer_us, u64::MAX);
    assert_eq!(still.frame, 1);
}

#[test]
fn walk_cycle_steps_only_while_moving() {
    let mut c = FrameClock::player();
    assert_eq!(c.walk(true, 2, 124_999), Some(0));
    assert_eq!(c.walk(true, 2, 1), Some(1));
    assert_eq!(c.timer_us, 0);
    assert_eq!(c.walk(false, 2, 10), Some(0));
    assert_eq!(c.frame, 0);
    assert_eq!(c.timer_us, 10);
    assert_eq!(c.walk(true, 0, 10), None);
    assert_eq!(c.timer_us, 20);
}

#[test]
fn player_animation_shows_each_new_swing_frame() {
    let t = full_table();
    let mut p = PlayerState::new();
    let mut clock = FrameClock::player();
    assert_eq!(
        animate_player(&mut p, &mut clock, &t, 10_000),
        SpriteChoice::Walk { facing: Facing::Right, frame: 0 }
    );
    p.start_swing(true);
    assert_eq!(animate_player(&mut p, &mut clock, &t, 10_000), SpriteChoice::Keep);
    assert_eq!(clock.timer_us, 10_000);
    assert_eq!(
        animate_player(&mut p, &mut clock, &t, 80_000),
        SpriteChoice::Swing { color: ColorId::Blue, slot: 13 }
    );
    assert_eq!(
        animate_player(&mut p, &mut clock, &t, 90_000),
        SpriteChoice::Swing { color: ColorId::Blue, slot: 14 }
    );
    assert_eq!(
        animate_player(&mut p, &mut clock, &t, 90_000),
        SpriteChoice::Swing { color: ColorId::Blue, slot: 15 }
    );
    assert_eq!(animate_player(&mut p, &mut clock, &t, 90_000), SpriteChoice::Keep);
    assert_eq!(p.phase, ActionPhase::Idle);
}

#[test]
fn player_animation_without_sprites_keeps_the_machine_running() {
    let t = empty_table();
    let mut p = PlayerState::new();
    let mut clock = FrameClock::player();
    assert_eq!(animate_player(&mut p, &mut clock, &t, 10_000), SpriteChoice::Keep);
    p.start_swing(true);
    for _ in 0..4 {
        assert_eq!(animate_player(&mut p, &mut clock, &t, 90_000), SpriteChoice::Keep);
    }
    assert_eq!(p.phase, ActionPhase::Idle);
}
