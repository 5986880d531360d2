use vstd::prelude::*;
use crate::units::FULL_TURN;
use crate::angle::{aimed, turned, wrapped};
use crate::tank::{BODY_SCALE, FIRE_COOLDOWN_MS, clamp_axis, cooled_down, initial_body, valid_screen, within};
use crate::bullet::{Bullet, advanced, inside, on_screen};
use crate::game::before_cull;

verus! {

/// The heading after a run of frames of the turn controls, each frame a
/// pair (left held, right held).
pub open spec fn heading_after(angle: int, speed: int, turns: Seq<(bool, bool)>) -> int
    decreases turns.len(),
{
    if turns.len() == 0 {
        angle
    } else {
        let prev = heading_after(angle, speed, turns.drop_last());
        turned(prev, turns.last().0, turns.last().1, speed)
    }
}

/// The turret angle after a run of frames of mouse tracking, each frame
/// given by the difference from the turret to the cursor.
pub open spec fn tracked_after(angle: int, speed: int, diffs: Seq<int>) -> int
    decreases diffs.len(),
{
    if diffs.len() == 0 {
        angle
    } else {
        aimed(tracked_after(angle, speed, diffs.drop_last()), diffs.last(), speed)
    }
}

/// An angle wrapped after an update lies in `[0, FULL_TURN)`, whatever it
/// was before.
pub proof fn lemma_wrapped_in_range(a: int)
    ensures
        0 <= wrapped(a) < FULL_TURN,
{
}

/// Turning keeps an angle in `[0, FULL_TURN)` after every frame, for every
/// run of turn controls.
pub proof fn lemma_turns_stay_in_range(angle: int, speed: int, turns: Seq<(bool, bool)>)
    requires
        0 <= angle < FULL_TURN,
    ensures
        0 <= heading_after(angle, speed, turns) < FULL_TURN,
    decreases turns.len(),
{
    if turns.len() > 0 {
        lemma_turns_stay_in_range(angle, speed, turns.drop_last());
    }
}

/// Mouse tracking keeps the turret angle in `[0, FULL_TURN)` after every
/// frame, for every run of cursor positions.
pub proof fn lemma_tracking_stays_in_range(angle: int, speed: int, diffs: Seq<int>)
    requires
        0 <= angle < FULL_TURN,
    ensures
        0 <= tracked_after(angle, speed, diffs) < FULL_TURN,
    decreases diffs.len(),
{
    if diffs.len() > 0 {
        lemma_tracking_stays_in_range(angle, speed, diffs.drop_last());
    }
}

/// One axis of the tank centre after a run of frames, each frame given by
/// its displacement along that axis.
pub open spec fn driven_after(c: int, moves: Seq<int>, extent: int, screen: int) -> int
    decreases moves.len(),
{
    if moves.len() == 0 {
        c
    } else {
        clamp_axis(driven_after(c, moves.drop_last(), extent, screen), moves.last(), extent, screen)
    }
}

/// From a position whose bounding box is inside the screen on an axis, the
/// box stays inside on that axis after every run of moves.
pub proof fn lemma_box_stays_inside(c: int, moves: Seq<int>, extent: int, screen: int)
    requires
        within(c, extent, screen),
    ensures
        within(driven_after(c, moves, extent, screen), extent, screen),
    decreases moves.len(),
{
    if moves.len() > 0 {
        lemma_box_stays_inside(c, moves.drop_last(), extent, screen);
    }
}

/// A fresh tank whose body fits the screen starts with its bounding box
/// strictly inside, and keeps it inside on both axes after every run of
/// moves.
pub proof fn lemma_fresh_tank_stays_inside(
    body_tex_w: u16,
    body_tex_h: u16,
    turret_tex_w: u16,
    turret_tex_h: u16,
    screen_w: i64,
    screen_h: i64,
    moves_x: Seq<int>,
    moves_y: Seq<int>,
)
    requires
        valid_screen(screen_w as int, screen_h as int),
        body_tex_w * BODY_SCALE < screen_w,
        body_tex_h * BODY_SCALE < screen_h,
    ensures
        ({
            let b = initial_body(body_tex_w, body_tex_h, turret_tex_w, turret_tex_h, screen_w, screen_h);
            &&& within(b.pos.x as int, b.width as int, screen_w as int)
            &&& within(b.pos.y as int, b.height as int, screen_h as int)
            &&& within(driven_after(b.pos.x as int, moves_x, b.width as int, screen_w as int), b.width as int, screen_w as int)
            &&& within(driven_after(b.pos.y as int, moves_y, b.height as int, screen_h as int), b.height as int, screen_h as int)
        }),
{
    let b = initial_body(body_tex_w, body_tex_h, turret_tex_w, turret_tex_h, screen_w, screen_h);
    lemma_box_stays_inside(b.pos.x as int, moves_x, b.width as int, screen_w as int);
    lemma_box_stays_inside(b.pos.y as int, moves_y, b.height as int, screen_h as int);
}

/// The time of the last shot and the times of the shots fired over a run of
/// frames, each frame a pair (shot asked for, time in milliseconds).
pub open spec fn fire_run(last: Option<u64>, frames: Seq<(bool, u64)>) -> (Option<u64>, Seq<u64>)
    decreases frames.len(),
{
    if frames.len() == 0 {
        (last, Seq::empty())
    } else {
        let prev = fire_run(last, frames.drop_last());
        let now = frames.last().1;
        if frames.last().0 && cooled_down(prev.0, now as int) {
            (Some(now), prev.1.push(now))
        } else {
            prev
        }
    }
}

/// Over any run of frames, consecutive shots are at least the cooldown
/// apart, and the first is at least the cooldown after the shot before the
/// run; every shot happens at the time of one of the frames.
pub proof fn lemma_shots_spaced(last: Option<u64>, frames: Seq<(bool, u64)>, lo: int, hi: int)
    requires
        forall|j: int| 0 <= j < frames.len() ==> lo <= (#[trigger] frames[j]).1 <= hi,
    ensures
        ({
            let (l, shots) = fire_run(last, frames);
            &&& shots.len() == 0 ==> l == last
            &&& shots.len() > 0 ==> l == Some(shots.last())
            &&& shots.len() > 0 ==> cooled_down(last, shots[0] as int)
            &&& forall|k: int| 0 <= k < shots.len() - 1 ==> #[trigger] shots[k + 1] - shots[k] >= FIRE_COOLDOWN_MS
            &&& forall|k: int| 0 <= k < shots.len() ==> lo <= #[trigger] shots[k] <= hi
            &&& shots.len() > 0 ==> shots.last() - shots[0] >= FIRE_COOLDOWN_MS * (shots.len() - 1)
        }),
    decreases frames.len(),
{
    if frames.len() > 0 {
        let rest = frames.drop_last();
        assert forall|j: int| 0 <= j < rest.len() implies lo <= (#[trigger] rest[j]).1 <= hi by {
            assert(rest[j] == frames[j]);
        }
        lemma_shots_spaced(last, rest, lo, hi);
        let prev = fire_run(last, rest);
        let now = frames.last().1;
        assert(lo <= frames[frames.len() - 1].1 <= hi);
        if frames.last().0 && cooled_down(prev.0, now as int) {
            let shots = prev.1.push(now);
            assert forall|k: int| 0 <= k < shots.len() - 1 implies #[trigger] shots[k + 1] - shots[k] >= FIRE_COOLDOWN_MS by {
                if k < prev.1.len() - 1 {
                    assert(shots[k] == prev.1[k] && shots[k + 1] == prev.1[k + 1]);
                }
            }
            assert forall|k: int| 0 <= k < shots.len() implies lo <= #[trigger] shots[k] <= hi by {
                if k < prev.1.len() {
                    assert(shots[k] == prev.1[k]);
                }
            }
            if prev.1.len() > 0 {
                assert(shots[0] == prev.1[0]);
            }
        }
    }
}

/// Firing on every frame of a run whose times span at most `span`
/// milliseconds gives at most `span / FIRE_COOLDOWN_MS + 1` shots: the rate
/// never exceeds one shot per cooldown.
pub proof fn lemma_fire_rate(last: Option<u64>, frames: Seq<(bool, u64)>, lo: int, span: int)
    requires
        span >= 0,
        forall|j: int| 0 <= j < frames.len() ==> lo <= (#[trigger] frames[j]).1 <= lo + span,
    ensures
        fire_run(last, frames).1.len() * FIRE_COOLDOWN_MS <= span + FIRE_COOLDOWN_MS,
{
    lemma_shots_spaced(last, frames, lo, lo + span);
    let shots = fire_run(last, frames).1;
    if shots.len() > 0 {
        assert(lo <= shots[0]);
        assert(shots[shots.len() - 1] <= lo + span);
    }
}

/// A bullet's direction never changes after it is fired: every bullet left
/// after a frame is either an earlier bullet moved one step along its own
/// direction, or the shot fired in that frame.
pub proof fn lemma_directions_fixed(bullets: Seq<Bullet>, shot: Option<Bullet>, w: int, h: int)
    ensures
        forall|k: int|
            0 <= k < before_cull(bullets, shot).filter(on_screen(w, h)).len() ==> {
                let b = #[trigger] before_cull(bullets, shot).filter(on_screen(w, h))[k];
                shot == Some(b) || exists|i: int|
                    0 <= i < bullets.len() && b == advanced(bullets[i]) && b.direction
                        == bullets[i].direction
            },
{
    let all = before_cull(bullets, shot);
    let moved = bullets.map_values(|b: Bullet| advanced(b));
    let kept = all.filter(on_screen(w, h));
    assert forall|k: int| 0 <= k < kept.len() implies {
        let b = #[trigger] kept[k];
        shot == Some(b) || exists|i: int|
            0 <= i < bullets.len() && b == advanced(bullets[i]) && b.direction == bullets[i].direction
    } by {
        let b = kept[k];
        assert(kept.contains(b));
        all.lemma_filter_contains_rev(on_screen(w, h), b);
        let j = choose|j: int| 0 <= j < all.len() && all[j] == b;
        if j < moved.len() {
            assert(b == advanced(bullets[j]));
        }
    }
}

/// Culling drops a bullet exactly when it is not strictly inside the screen:
/// a bullet is kept if and only if it was there and is strictly inside.
pub proof fn lemma_cull_exact(bullets: Seq<Bullet>, w: int, h: int)
    ensures
        forall|b: Bullet|
            #[trigger] bullets.filter(on_screen(w, h)).contains(b) <==> (bullets.contains(b) && inside(
                b,
                w,
                h,
            )),
{
    let kept = bullets.filter(on_screen(w, h));
    assert forall|b: Bullet| #[trigger] kept.contains(b) <==> (bullets.contains(b) && inside(b, w, h)) by {
        if kept.contains(b) {
            bullets.lemma_filter_contains_rev(on_screen(w, h), b);
            let k = choose|k: int| 0 <= k < kept.len() && kept[k] == b;
            bullets.lemma_filter_pred(on_screen(w, h), k);
        }
        if bullets.contains(b) && inside(b, w, h) {
            let i = choose|i: int| 0 <= i < bullets.len() && bullets[i] == b;
            bullets.lemma_filter_contains(on_screen(w, h), i);
        }
    }
}

} // verus!
