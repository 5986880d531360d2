use vstd::prelude::*;
use crate::units::{Vec2i, UNIT, MAX_COORD};
use crate::tank::valid_screen;

verus! {

/// Distance a bullet travels per frame, pixels.
pub const BULLET_SPEED: i64 = 10;

/// Drawn length of a bullet, milli-pixels.
pub const BULLET_LENGTH: i64 = 10 * UNIT;

/// Drawn thickness of a bullet, milli-pixels.
pub const BULLET_THICKNESS: i64 = 3 * UNIT;

/// A bullet in flight. Its direction is set when it is fired and never
/// changes.
#[derive(Clone, Copy, Debug, PartialEq, Eq, Structural)]
pub struct Bullet {
    /// Base of the bullet, milli-pixels.
    pub pos: Vec2i,
    /// Direction of travel, in units of `1 / UNIT`.
    pub direction: Vec2i,
    /// Drawn length, milli-pixels.
    pub length: i64,
    /// Drawn thickness, milli-pixels.
    pub thickness: i64,
}

impl Bullet {
    /// A bullet in flight that is on or inside the largest screen.
    pub open spec fn wf(&self) -> bool {
        &&& self.direction.is_direction()
        &&& 0 <= self.pos.x <= MAX_COORD
        &&& 0 <= self.pos.y <= MAX_COORD
    }

    /// A bullet leaving `pos` along `direction`.
    pub fn new(pos: Vec2i, direction: Vec2i) -> (r: Bullet)
        ensures
            r == spawned(pos, direction),
    {
        Bullet { pos, direction, length: BULLET_LENGTH, thickness: BULLET_THICKNESS }
    }
}

/// The bullet fired from `pos` along `direction`.
pub open spec fn spawned(pos: Vec2i, direction: Vec2i) -> Bullet {
    Bullet { pos, direction, length: BULLET_LENGTH, thickness: BULLET_THICKNESS }
}

/// The bullet after one frame of flight.
pub open spec fn advanced(b: Bullet) -> Bullet {
    Bullet {
        pos: Vec2i {
            x: (b.pos.x + BULLET_SPEED * b.direction.x) as i64,
            y: (b.pos.y + BULLET_SPEED * b.direction.y) as i64,
        },
        ..b
    }
}

/// Whether a bullet is strictly inside a `w` by `h` screen.
pub open spec fn inside(b: Bullet, w: int, h: int) -> bool {
    0 < b.pos.x < w && 0 < b.pos.y < h
}

/// The test that keeps a bullet alive on a `w` by `h` screen.
pub open spec fn on_screen(w: int, h: int) -> spec_fn(Bullet) -> bool {
    |b: Bullet| inside(b, w, h)
}

/// Moves every bullet one frame along its own direction.
pub fn advance_bullets(bullets: &mut Vec<Bullet>)
    requires
        forall|i: int| 0 <= i < old(bullets)@.len() ==> #[trigger] old(bullets)@[i].wf(),
    ensures
        final(bullets)@ == old(bullets)@.map_values(|b: Bullet| advanced(b)),
{
    let n = bullets.len();
    let mut i: usize = 0;
    while i < n
        invariant
            n == bullets@.len(),
            n == old(bullets)@.len(),
            0 <= i <= n,
            forall|j: int| 0 <= j < i ==> #[trigger] bullets@[j] == advanced(old(bullets)@[j]),
            forall|j: int| i <= j < n ==> #[trigger] bullets@[j] == old(bullets)@[j],
            forall|j: int| 0 <= j < n ==> #[trigger] old(bullets)@[j].wf(),
        decreases n - i,
    {
        let b = bullets[i];
        assert(old(bullets)@[i as int].wf());
        let moved = Bullet {
            pos: Vec2i::new(
                b.pos.x + BULLET_SPEED * b.direction.x,
                b.pos.y + BULLET_SPEED * b.direction.y,
            ),
            ..b
        };
        bullets.set(i, moved);
        i = i + 1;
    }
    assert(bullets@ =~= old(bullets)@.map_values(|b: Bullet| advanced(b)));
}

/// Removes the bullets that are not strictly inside a `w` by `h` screen,
/// keeping the order of the rest.
pub fn cull_bullets(bullets: &mut Vec<Bullet>, w: i64, h: i64)
    ensures
        final(bullets)@ == old(bullets)@.filter(on_screen(w as int, h as int)),
{
    let mut kept: Vec<Bullet> = Vec::new();
    let n = bullets.len();
    let mut i: usize = 0;
    while i < n
        invariant
            n == bullets@.len(),
            bullets@ == old(bullets)@,
            0 <= i <= n,
            kept@ == bullets@.take(i as int).filter(on_screen(w as int, h as int)),
        decreases n - i,
    {
        let b = bullets[i];
        proof {
            assert(bullets@.take(i + 1) == bullets@.take(i as int).push(b));
            bullets@.take(i as int).lemma_filter_push(b, on_screen(w as int, h as int));
            assert(on_screen(w as int, h as int)(b) == inside(b, w as int, h as int));
        }
        if 0 < b.pos.x && b.pos.x < w && 0 < b.pos.y && b.pos.y < h {
            kept.push(b);
        }
        i = i + 1;
    }
    assert(bullets@.take(n as int) == bullets@);
    *bullets = kept;
}

/// Every bullet kept on a screen is in flight on it: culling leaves only
/// well-formed bullets when the candidates all had unit-bounded directions.
pub proof fn lemma_culled_wf(s: Seq<Bullet>, w: int, h: int)
    requires
        valid_screen(w, h),
        forall|i: int| 0 <= i < s.len() ==> (#[trigger] s[i]).direction.is_direction(),
    ensures
        forall|k: int|
            0 <= k < s.filter(on_screen(w, h)).len() ==> (#[trigger] s.filter(on_screen(w, h))[k]).wf(),
{
    let kept = s.filter(on_screen(w, h));
    assert forall|k: int| 0 <= k < kept.len() implies (#[trigger] kept[k]).wf() by {
        let e = kept[k];
        assert(kept.contains(e));
        s.lemma_filter_contains_rev(on_screen(w, h), e);
        s.lemma_filter_pred(on_screen(w, h), k);
        let j = choose|j: int| 0 <= j < s.len() && s[j] == e;
        assert(s[j].direction.is_direction());
    }
}

} // verus!
