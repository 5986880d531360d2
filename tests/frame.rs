use woo_tank::angle::{aim_delta, aim_toward, turn, wrap_angle};
use woo_tank::bullet::{advance_bullets, cull_bullets, Bullet, BULLET_LENGTH, BULLET_THICKNESS};
use woo_tank::game::{FrameInput, Game};
use woo_tank::tank::{Body, Turret};
use woo_tank::units::{div_trunc, Vec2i};

const SCREEN_W: i64 = 800_000;
const SCREEN_H: i64 = 600_000;

fn idle() -> FrameInput {
    FrameInput {
        turn_left: false,
        turn_right: false,
        toggle_aim: false,
        turret_left: false,
        turret_right: false,
        forward: false,
        backward: false,
        fire_key: false,
        mouse_left: false,
    }
}

fn up() -> Vec2i {
    Vec2i::new(0, -1000)
}

#[test]
fn new_tank_starts_at_screen_centre() {
    let g = Game::new(42, 46, 16, 26, SCREEN_W, SCREEN_H);
    assert_eq!(g.player.pos, Vec2i::new(400_000, 300_000));
    assert_eq!(g.player.angle, 20_000);
    assert_eq!(g.player.speed, 5);
    assert_eq!(g.player.angular_speed, 5_000);
    assert_eq!(g.player.width, 42 * 1800);
    assert_eq!(g.player.height, 46 * 1800);
    assert_eq!(g.player.turret.angle, 0);
    assert_eq!(g.player.turret.width, 16 * 600);
    assert_eq!(g.player.turret.height, 26 * 600);
    assert!(g.player.turret.aim_mouse);
    assert_eq!(g.player.turret.last_shot_ms, None);
    assert!(g.bullets.is_empty());
}

#[test]
fn fresh_tank_on_a_narrow_screen_starts_inside() {
    // body 1_800 milli-pixels on a 1_802 milli-pixel screen
    let b = Body::new(1, 1, 1, 1, 1_802, 1_802);
    assert_eq!(b.pos, Vec2i::new(901, 901));
    assert!(0 < 2 * b.pos.x - b.width && 2 * b.pos.x + b.width < 2 * 1_802);
    assert!(0 < 2 * b.pos.y - b.height && 2 * b.pos.y + b.height < 2 * 1_802);
}

#[test]
fn wrap_angle_maps_into_full_turn() {
    assert_eq!(wrap_angle(-5_000), 355_000);
    assert_eq!(wrap_angle(360_000), 0);
    assert_eq!(wrap_angle(365_000), 5_000);
    assert_eq!(wrap_angle(0), 0);
    assert_eq!(wrap_angle(-720_000), 0);
}

#[test]
fn body_turn_wraps_both_ways() {
    assert_eq!(turn(0, true, false, 5_000), 355_000);
    assert_eq!(turn(358_000, false, true, 5_000), 3_000);
    assert_eq!(turn(10_000, true, true, 5_000), 10_000);
    assert_eq!(turn(10_000, false, false, 5_000), 10_000);
}

#[test]
fn angles_stay_in_range_over_many_frames() {
    let mut g = Game::new(42, 46, 16, 26, SCREEN_W, SCREEN_H);
    let mut input = idle();
    input.turn_left = true;
    for frame in 0..500 {
        input.turret_right = frame % 3 == 0;
        input.toggle_aim = frame == 10;
        g.steer(&input);
        g.aim(&input, 0);
        assert!(0 <= g.player.angle && g.player.angle < 360_000);
        assert!(0 <= g.player.turret.angle && g.player.turret.angle < 360_000);
    }
    assert!(!g.player.turret.aim_mouse);
    assert_eq!(g.player.angle, (20_000 - 500 * 5_000i64).rem_euclid(360_000));
}

#[test]
fn aim_delta_full_speed_beyond_threshold() {
    assert_eq!(aim_delta(90_000, 5_000), 5_000);
    assert_eq!(aim_delta(-180_000, 5_000), -5_000);
    assert_eq!(aim_delta(10_001, 5_000), 5_000);
}

#[test]
fn aim_delta_eases_out_within_threshold() {
    // t = 0.5: 0.5 * 1.5 = 0.75 degrees
    assert_eq!(aim_delta(5_000, 5_000), 750);
    // t = 1: 1 degree
    assert_eq!(aim_delta(10_000, 5_000), 1_000);
    // t = -1: -1 * 3 = -3 degrees
    assert_eq!(aim_delta(-10_000, 5_000), -3_000);
    // t = -0.5: -0.5 * 2.5 = -1.25 degrees
    assert_eq!(aim_delta(-5_000, 5_000), -1_250);
    // rounds toward zero
    assert_eq!(aim_delta(4, 5_000), 0);
    assert_eq!(aim_delta(-4, 5_000), 0);
}

#[test]
fn aligned_cursor_leaves_turret_unchanged() {
    let mut g = Game::new(42, 46, 16, 26, SCREEN_W, SCREEN_H);
    g.player.turret.angle = 123_456;
    let before = g.player;
    g.aim(&idle(), 0);
    assert_eq!(g.player, before);
    assert_eq!(aim_toward(0, 0, 5_000), 0);
}

#[test]
fn tracking_turns_toward_cursor_and_wraps() {
    let mut t = Turret {
        angle: 2_000,
        angular_speed: 5_000,
        aim_mouse: true,
        width: 0,
        height: 0,
        last_shot_ms: None,
    };
    t.track(-90_000);
    assert_eq!(t.angle, 357_000);
    t.track(90_000);
    assert_eq!(t.angle, 2_000);
}

#[test]
fn key_control_turns_turret() {
    let mut g = Game::new(42, 46, 16, 26, SCREEN_W, SCREEN_H);
    let mut input = idle();
    input.toggle_aim = true;
    g.steer(&input);
    assert!(!g.player.turret.aim_mouse);
    input.toggle_aim = false;
    input.turret_left = true;
    g.aim(&input, 90_000);
    assert_eq!(g.player.turret.angle, 355_000);
    input.turret_left = false;
    input.turret_right = true;
    g.aim(&input, 90_000);
    assert_eq!(g.player.turret.angle, 0);
}

#[test]
fn forward_moves_up_until_the_top_edge() {
    let mut g = Game::new(42, 46, 16, 26, SCREEN_W, SCREEN_H);
    g.player.angle = 0;
    let mut input = idle();
    input.forward = true;
    let (cx, cy) = (g.player.pos.x, g.player.pos.y);
    // half the body length is 41_400: the box stays inside while y > 41_400
    for n in 1..=51i64 {
        g.update_motion(&input, up(), up(), 0, SCREEN_W, SCREEN_H);
        assert_eq!(g.player.pos, Vec2i::new(cx, cy - 5_000 * n));
    }
    for _ in 0..20 {
        g.update_motion(&input, up(), up(), 0, SCREEN_W, SCREEN_H);
        assert_eq!(g.player.pos, Vec2i::new(cx, cy - 5_000 * 51));
    }
    assert_eq!(g.player.pos.y, 45_000);
}

#[test]
fn backward_and_forward_cancel() {
    let mut g = Game::new(42, 46, 16, 26, SCREEN_W, SCREEN_H);
    let mut input = idle();
    input.forward = true;
    input.backward = true;
    let before = g.player.pos;
    g.update_motion(&input, Vec2i::new(600, -800), up(), 0, SCREEN_W, SCREEN_H);
    assert_eq!(g.player.pos, before);
}

#[test]
fn blocked_axis_still_lets_the_other_slide() {
    let mut b = Body::new(42, 46, 16, 26, SCREEN_W, SCREEN_H);
    // right edge: x + 37_800 must stay below 800_000
    b.pos = Vec2i::new(760_000, 300_000);
    b.drive(true, false, Vec2i::new(707, 707), SCREEN_W, SCREEN_H);
    assert_eq!(b.pos, Vec2i::new(760_000, 303_535));
    b.drive(true, false, Vec2i::new(1000, 0), SCREEN_W, SCREEN_H);
    assert_eq!(b.pos, Vec2i::new(760_000, 303_535));
    b.drive(false, true, Vec2i::new(1000, 0), SCREEN_W, SCREEN_H);
    assert_eq!(b.pos, Vec2i::new(755_000, 303_535));
}

#[test]
fn box_never_crosses_the_border() {
    let mut g = Game::new(42, 46, 16, 26, SCREEN_W, SCREEN_H);
    let dirs = [Vec2i::new(0, -1000), Vec2i::new(1000, 0), Vec2i::new(-707, 707), Vec2i::new(600, 800)];
    let mut input = idle();
    input.forward = true;
    for frame in 0..2000usize {
        let d = dirs[(frame / 150) % dirs.len()];
        g.update_motion(&input, d, d, 0, SCREEN_W, SCREEN_H);
        let p = g.player;
        assert!(0 < 2 * p.pos.x - p.width && 2 * p.pos.x + p.width < 2 * SCREEN_W);
        assert!(0 < 2 * p.pos.y - p.height && 2 * p.pos.y + p.height < 2 * SCREEN_H);
    }
}

#[test]
fn muzzle_is_six_tenths_of_body_length_ahead() {
    let b = Body::new(42, 46, 16, 26, SCREEN_W, SCREEN_H);
    // 0.6 * 82_800 = 49_680
    assert_eq!(b.muzzle(up()), Vec2i::new(400_000, 300_000 - 49_680));
    // 0.6 * 82_800 * 0.5 = 24_840, toward zero for negatives
    assert_eq!(b.muzzle(Vec2i::new(-500, 500)), Vec2i::new(400_000 - 24_840, 300_000 + 24_840));
}

#[test]
fn fire_held_one_second_gives_four_shots() {
    let mut g = Game::new(42, 46, 16, 26, 4_000_000, 4_000_000);
    let mut input = idle();
    input.mouse_left = true;
    let mut shots = Vec::new();
    let mut t: u64 = 0;
    while t < 1000 {
        if g.update_motion(&input, up(), Vec2i::new(1000, 0), t, 4_000_000, 4_000_000) {
            shots.push(t);
        }
        t += 10;
    }
    assert_eq!(shots, vec![0, 300, 600, 900]);
    assert_eq!(g.bullets.len(), 4);
}

#[test]
fn try_fire_respects_cooldown() {
    let mut t = Turret {
        angle: 0,
        angular_speed: 5_000,
        aim_mouse: false,
        width: 0,
        height: 0,
        last_shot_ms: None,
    };
    assert!(!t.try_fire(false, 50));
    assert_eq!(t.last_shot_ms, None);
    assert!(t.try_fire(true, 50));
    assert_eq!(t.last_shot_ms, Some(50));
    assert!(!t.try_fire(true, 349));
    assert_eq!(t.last_shot_ms, Some(50));
    assert!(t.try_fire(true, 350));
    assert_eq!(t.last_shot_ms, Some(350));
    // a clock that runs backward never fires
    assert!(!t.try_fire(true, 10));
}

#[test]
fn fire_request_follows_aim_mode() {
    let mut g = Game::new(42, 46, 16, 26, SCREEN_W, SCREEN_H);
    let mut input = idle();
    input.fire_key = true;
    assert!(!g.update_motion(&input, up(), up(), 0, SCREEN_W, SCREEN_H));
    g.player.turret.aim_mouse = false;
    assert!(g.update_motion(&input, up(), up(), 0, SCREEN_W, SCREEN_H));
    input.fire_key = false;
    input.mouse_left = true;
    assert!(!g.update_motion(&input, up(), up(), 1000, SCREEN_W, SCREEN_H));
}

#[test]
fn bullet_spawns_at_muzzle_with_turret_direction() {
    let mut g = Game::new(42, 46, 16, 26, SCREEN_W, SCREEN_H);
    let mut input = idle();
    input.mouse_left = true;
    assert!(g.update_motion(&input, up(), Vec2i::new(1000, 0), 0, SCREEN_W, SCREEN_H));
    assert_eq!(g.bullets.len(), 1);
    let b = g.bullets[0];
    assert_eq!(b.pos, Vec2i::new(400_000 + 49_680, 300_000));
    assert_eq!(b.direction, Vec2i::new(1000, 0));
    assert_eq!(b.length, BULLET_LENGTH);
    assert_eq!(b.thickness, BULLET_THICKNESS);
}

#[test]
fn bullet_direction_ignores_later_rotation() {
    let mut g = Game::new(42, 46, 16, 26, SCREEN_W, SCREEN_H);
    let mut input = idle();
    input.mouse_left = true;
    g.update_motion(&input, up(), Vec2i::new(1000, 0), 0, SCREEN_W, SCREEN_H);
    input.mouse_left = false;
    input.turn_right = true;
    for frame in 1..10u64 {
        g.steer(&input);
        g.aim(&input, 90_000);
        g.update_motion(&input, up(), Vec2i::new(0, 1000), frame * 16, SCREEN_W, SCREEN_H);
    }
    assert_eq!(g.bullets.len(), 1);
    assert_eq!(g.bullets[0].direction, Vec2i::new(1000, 0));
    assert_eq!(g.bullets[0].pos, Vec2i::new(449_680 + 9 * 10_000, 300_000));
}

#[test]
fn advance_moves_each_bullet_ten_pixels() {
    let mut bs = vec![
        Bullet::new(Vec2i::new(100_000, 100_000), Vec2i::new(600, -800)),
        Bullet::new(Vec2i::new(5_000, 7_000), Vec2i::new(-1000, 0)),
    ];
    advance_bullets(&mut bs);
    assert_eq!(bs[0].pos, Vec2i::new(106_000, 92_000));
    assert_eq!(bs[1].pos, Vec2i::new(-5_000, 7_000));
    assert_eq!(bs[0].direction, Vec2i::new(600, -800));
}

#[test]
fn cull_drops_exactly_the_bullets_off_screen() {
    let d = Vec2i::new(1000, 0);
    let mut bs = vec![
        Bullet::new(Vec2i::new(1, 1), d),
        Bullet::new(Vec2i::new(0, 300), d),
        Bullet::new(Vec2i::new(799_999, 599_999), d),
        Bullet::new(Vec2i::new(800_000, 300), d),
        Bullet::new(Vec2i::new(300, 600_000), d),
        Bullet::new(Vec2i::new(-5, 300), d),
        Bullet::new(Vec2i::new(300, -1), d),
        Bullet::new(Vec2i::new(400_000, 300_000), d),
    ];
    cull_bullets(&mut bs, SCREEN_W, SCREEN_H);
    let left: Vec<Vec2i> = bs.iter().map(|b| b.pos).collect();
    assert_eq!(
        left,
        vec![Vec2i::new(1, 1), Vec2i::new(799_999, 599_999), Vec2i::new(400_000, 300_000)]
    );
}

#[test]
fn cull_on_empty_keeps_nothing() {
    let mut bs: Vec<Bullet> = Vec::new();
    cull_bullets(&mut bs, SCREEN_W, SCREEN_H);
    assert!(bs.is_empty());
}

#[test]
fn bullet_leaves_after_crossing_the_edge() {
    let mut g = Game::new(42, 46, 16, 26, SCREEN_W, SCREEN_H);
    let mut input = idle();
    input.mouse_left = true;
    g.update_motion(&input, up(), Vec2i::new(1000, 0), 0, SCREEN_W, SCREEN_H);
    input.mouse_left = false;
    // from x = 449_680, ten pixels a frame: last inside at 799_680 (35 steps)
    for _ in 0..35 {
        g.update_motion(&input, up(), up(), 0, SCREEN_W, SCREEN_H);
        assert_eq!(g.bullets.len(), 1);
    }
    assert_eq!(g.bullets[0].pos.x, 799_680);
    g.update_motion(&input, up(), up(), 0, SCREEN_W, SCREEN_H);
    assert!(g.bullets.is_empty());
}

#[test]
fn div_trunc_rounds_toward_zero() {
    assert_eq!(div_trunc(7, 2), 3);
    assert_eq!(div_trunc(-7, 2), -3);
    assert_eq!(div_trunc(0, 5), 0);
}
