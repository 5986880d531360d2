use vstd::prelude::*;
use crate::units::{FULL_TURN, div_toward_zero, div_trunc};

verus! {

/// Above this angular difference (milli-degrees) the turret turns at full
/// speed; at or below it, it eases out.
pub const AIM_THRESHOLD: i64 = 10_000;

/// Divisor of the ease-out step: with `t = d / AIM_THRESHOLD`, the step in
/// milli-degrees is `UNIT * t * (2 - t)`, which is
/// `d * (2 * AIM_THRESHOLD - d) / EASE_DIVISOR`.
pub const EASE_DIVISOR: i64 = 100_000;

/// The angle `a` wrapped into `[0, FULL_TURN)`.
pub open spec fn wrapped(a: int) -> int {
    a % (FULL_TURN as int)
}

/// Wraps an angle in milli-degrees into `[0, FULL_TURN)`.
pub fn wrap_angle(a: i64) -> (r: i64)
    ensures
        r == wrapped(a as int),
        0 <= r < FULL_TURN,
{
    let m = a % FULL_TURN;
    if m < 0 {
        m + FULL_TURN
    } else {
        m
    }
}

/// Change of angle from two opposing turn controls held this frame.
pub open spec fn turn_delta(left: bool, right: bool, speed: int) -> int {
    (if right { speed } else { 0 }) - (if left { speed } else { 0 })
}

/// The angle after one frame of turning, wrapped.
pub open spec fn turned(angle: int, left: bool, right: bool, speed: int) -> int {
    wrapped(angle + turn_delta(left, right, speed))
}

/// Turns `angle` by `speed` for each turn control held (right is
/// clockwise-positive) and wraps the result.
pub fn turn(angle: i64, left: bool, right: bool, speed: i64) -> (r: i64)
    requires
        0 <= angle < FULL_TURN,
        0 <= speed <= FULL_TURN,
    ensures
        r == turned(angle as int, left, right, speed as int),
        0 <= r < FULL_TURN,
{
    let mut a = angle;
    if right {
        a = a + speed;
    }
    if left {
        a = a - speed;
    }
    wrap_angle(a)
}

/// Ease-out step for a small difference `d`: `UNIT * t * (2 - t)` with
/// `t = d / AIM_THRESHOLD`, rounded toward zero.
pub open spec fn ease_out(d: int) -> int {
    div_toward_zero(d * (2 * AIM_THRESHOLD - d), EASE_DIVISOR as int)
}

/// Turret rotation for one frame of mouse tracking: full speed toward the
/// target beyond the threshold, ease-out within it.
pub open spec fn aim_step(d: int, speed: int) -> int {
    if d > AIM_THRESHOLD {
        speed
    } else if d < -AIM_THRESHOLD {
        -speed
    } else {
        ease_out(d)
    }
}

/// The rotation, in milli-degrees, that mouse tracking applies to the turret
/// when the signed difference from its direction to the cursor is `d`.
pub fn aim_delta(d: i64, speed: i64) -> (r: i64)
    requires
        -FULL_TURN <= d <= FULL_TURN,
        0 <= speed <= FULL_TURN,
    ensures
        r == aim_step(d as int, speed as int),
        -FULL_TURN <= r <= FULL_TURN,
        d == 0 ==> r == 0,
{
    if d > AIM_THRESHOLD {
        speed
    } else if d < -AIM_THRESHOLD {
        -speed
    } else {
        assert(-10_000 * 30_000 <= d * (2 * AIM_THRESHOLD - d) <= 10_000 * 20_000) by (nonlinear_arith)
            requires
                -AIM_THRESHOLD <= d <= AIM_THRESHOLD,
        ;
        div_trunc(d * (2 * AIM_THRESHOLD - d), EASE_DIVISOR)
    }
}

/// The turret angle after one frame of mouse tracking, wrapped.
pub open spec fn aimed(angle: int, d: int, speed: int) -> int {
    wrapped(angle + aim_step(d, speed))
}

/// Rotates a turret angle toward a target `d` milli-degrees away (positive is
/// clockwise) and wraps the result.
pub fn aim_toward(angle: i64, d: i64, speed: i64) -> (r: i64)
    requires
        0 <= angle < FULL_TURN,
        -FULL_TURN <= d <= FULL_TURN,
        0 <= speed <= FULL_TURN,
    ensures
        r == aimed(angle as int, d as int, speed as int),
        0 <= r < FULL_TURN,
        d == 0 ==> r == angle,
{
    let step = aim_delta(d, speed);
    let r = wrap_angle(angle + step);
    proof {
        if d == 0 {
            assert(wrapped(angle as int) == angle) by {
                vstd::arithmetic::div_mod::lemma_small_mod(angle as nat, FULL_TURN as nat);
            }
        }
    }
    r
}

} // verus!
