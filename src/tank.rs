use vstd::prelude::*;
use crate::units::{Vec2i, UNIT, FULL_TURN, MAX_COORD, MAX_SPEED, div_toward_zero, div_trunc};
use crate::angle::{turn, turned, aim_toward, aimed};

verus! {

/// Drawn size of the body per pixel of its texture, in milli-pixels (1.8x).
pub const BODY_SCALE: i64 = 1800;

/// Drawn size of the turret per pixel of its texture, in milli-pixels (0.6x).
pub const TURRET_SCALE: i64 = 600;

/// Minimum time between two shots of one turret, in milliseconds.
pub const FIRE_COOLDOWN_MS: u64 = 300;

/// The turret: its angle relative to the body heading, its aim mode and the
/// time of its last shot.
#[derive(Clone, Copy, Debug, PartialEq, Eq, Structural)]
pub struct Turret {
    /// Angle relative to the body heading, milli-degrees.
    pub angle: i64,
    /// Turn rate, milli-degrees per frame.
    pub angular_speed: i64,
    /// True while the turret follows the mouse cursor; false under key control.
    pub aim_mouse: bool,
    /// Drawn width, milli-pixels.
    pub width: i64,
    /// Drawn length, milli-pixels.
    pub height: i64,
    /// Time of the last shot, milliseconds; `None` before the first.
    pub last_shot_ms: Option<u64>,
}

/// The tank body, which carries the turret.
#[derive(Clone, Copy, Debug, PartialEq, Eq, Structural)]
pub struct Body {
    /// Centre, milli-pixels.
    pub pos: Vec2i,
    /// Heading, milli-degrees; 0 points up, clockwise is positive.
    pub angle: i64,
    /// Distance moved per frame, pixels.
    pub speed: i64,
    /// Turn rate, milli-degrees per frame.
    pub angular_speed: i64,
    /// Drawn width, milli-pixels.
    pub width: i64,
    /// Drawn length, milli-pixels.
    pub height: i64,
    pub turret: Turret,
}

/// Whether the last shot, if any, is at least the cooldown before `now`.
pub open spec fn cooled_down(last: Option<u64>, now: int) -> bool {
    match last {
        None => true,
        Some(t) => now - t >= FIRE_COOLDOWN_MS,
    }
}

/// Displacement along one axis for one frame of the move controls.
pub open spec fn velocity(dir: int, speed: int, forward: bool, backward: bool) -> int {
    (if forward { dir * speed } else { 0 }) - (if backward { dir * speed } else { 0 })
}

/// Whether a box of the given extent centred at `c` lies strictly inside
/// `[0, screen]` on one axis.
pub open spec fn within(c: int, extent: int, screen: int) -> bool {
    0 < 2 * c - extent && 2 * c + extent < 2 * screen
}

/// One axis of a move: the candidate `c + v` if the box stays inside,
/// else `c`.
pub open spec fn clamp_axis(c: int, v: int, extent: int, screen: int) -> int {
    if within(c + v, extent, screen) {
        c + v
    } else {
        c
    }
}

/// Offset of the muzzle from the tank centre along one axis: 0.6 of the
/// body length along the aim direction, rounded toward zero.
pub open spec fn muzzle_offset(dir: int, height: int) -> int {
    div_toward_zero(dir * height * 3, 5 * UNIT)
}

/// The muzzle of a tank centred at `pos` with body length `height`, aiming
/// along `dir`.
pub open spec fn muzzle_at(pos: Vec2i, dir: Vec2i, height: int) -> Vec2i {
    Vec2i {
        x: (pos.x + muzzle_offset(dir.x as int, height)) as i64,
        y: (pos.y + muzzle_offset(dir.y as int, height)) as i64,
    }
}

/// A fresh tank: at the centre of the screen, heading 20 degrees, speed
/// 5 pixels and turn rates 5 degrees per frame, sprites scaled from their
/// textures, turret straight ahead tracking the mouse, no shot yet.
pub open spec fn initial_body(
    body_tex_w: u16,
    body_tex_h: u16,
    turret_tex_w: u16,
    turret_tex_h: u16,
    screen_w: i64,
    screen_h: i64,
) -> Body {
    Body {
        pos: Vec2i { x: (screen_w / 2) as i64, y: (screen_h / 2) as i64 },
        angle: 20_000,
        speed: 5,
        angular_speed: 5_000,
        width: (body_tex_w * BODY_SCALE) as i64,
        height: (body_tex_h * BODY_SCALE) as i64,
        turret: Turret {
            angle: 0,
            angular_speed: 5_000,
            aim_mouse: true,
            width: (turret_tex_w * TURRET_SCALE) as i64,
            height: (turret_tex_h * TURRET_SCALE) as i64,
            last_shot_ms: None,
        },
    }
}

/// Whether a screen size is usable. Screen sizes are counted in steps of
/// two milli-pixels, so that the centre of the screen is a whole
/// milli-pixel.
pub open spec fn valid_screen(w: int, h: int) -> bool {
    &&& 0 < w <= MAX_COORD
    &&& 0 < h <= MAX_COORD
    &&& w % 2 == 0
    &&& h % 2 == 0
}

impl Turret {
    pub open spec fn wf(&self) -> bool {
        &&& 0 <= self.angle < FULL_TURN
        &&& 0 <= self.angular_speed <= FULL_TURN
        &&& 0 <= self.width <= MAX_COORD
        &&& 0 <= self.height <= MAX_COORD
    }

    /// Switches between mouse tracking and key control.
    pub fn toggle_aim_mode(&mut self)
        ensures
            *final(self) == (Turret { aim_mouse: !old(self).aim_mouse, ..*old(self) }),
    {
        self.aim_mouse = !self.aim_mouse;
    }

    /// One frame of key control: turn by the turn rate per key held.
    pub fn turn_by_keys(&mut self, left: bool, right: bool)
        requires
            old(self).wf(),
        ensures
            *final(self) == (Turret {
                angle: turned(old(self).angle as int, left, right, old(self).angular_speed as int)
                    as i64,
                ..*old(self)
            }),
            final(self).wf(),
    {
        self.angle = turn(self.angle, left, right, self.angular_speed);
    }

    /// One frame of mouse tracking, `diff` milli-degrees from the cursor
    /// direction (positive is clockwise).
    pub fn track(&mut self, diff: i64)
        requires
            old(self).wf(),
            -FULL_TURN <= diff <= FULL_TURN,
        ensures
            *final(self) == (Turret {
                angle: aimed(old(self).angle as int, diff as int, old(self).angular_speed as int)
                    as i64,
                ..*old(self)
            }),
            final(self).wf(),
            diff == 0 ==> *final(self) == *old(self),
    {
        self.angle = aim_toward(self.angle, diff, self.angular_speed);
    }

    /// Fires if asked and the cooldown has passed, recording the time.
    pub fn try_fire(&mut self, requested: bool, now_ms: u64) -> (fired: bool)
        ensures
            fired == (requested && cooled_down(old(self).last_shot_ms, now_ms as int)),
            *final(self) == (Turret {
                last_shot_ms: if fired { Some(now_ms) } else { old(self).last_shot_ms },
                ..*old(self)
            }),
    {
        let ready = match self.last_shot_ms {
            None => true,
            Some(t) => now_ms >= t && now_ms - t >= FIRE_COOLDOWN_MS,
        };
        if requested && ready {
            self.last_shot_ms = Some(now_ms);
            true
        } else {
            false
        }
    }
}

impl Body {
    pub open spec fn wf(&self) -> bool {
        &&& 0 <= self.angle < FULL_TURN
        &&& 0 <= self.speed <= MAX_SPEED
        &&& 0 <= self.angular_speed <= FULL_TURN
        &&& 0 <= self.width <= MAX_COORD
        &&& 0 <= self.height <= MAX_COORD
        &&& 0 <= self.pos.x <= MAX_COORD
        &&& 0 <= self.pos.y <= MAX_COORD
        &&& self.turret.wf()
    }

    /// A tank at the centre of the screen, heading 20 degrees, sized from its
    /// textures' pixel sizes.
    pub fn new(
        body_tex_w: u16,
        body_tex_h: u16,
        turret_tex_w: u16,
        turret_tex_h: u16,
        screen_w: i64,
        screen_h: i64,
    ) -> (r: Body)
        requires
            valid_screen(screen_w as int, screen_h as int),
        ensures
            r.wf(),
            r == initial_body(body_tex_w, body_tex_h, turret_tex_w, turret_tex_h, screen_w, screen_h),
            body_tex_w * BODY_SCALE < screen_w ==> within(r.pos.x as int, r.width as int, screen_w as int),
            body_tex_h * BODY_SCALE < screen_h ==> within(r.pos.y as int, r.height as int, screen_h as int),
    {
        Body {
            pos: Vec2i::new(screen_w / 2, screen_h / 2),
            angle: 20 * UNIT,
            speed: 5,
            angular_speed: 5 * UNIT,
            width: body_tex_w as i64 * BODY_SCALE,
            height: body_tex_h as i64 * BODY_SCALE,
            turret: Turret {
                angle: 0,
                angular_speed: 5 * UNIT,
                aim_mouse: true,
                width: turret_tex_w as i64 * TURRET_SCALE,
                height: turret_tex_h as i64 * TURRET_SCALE,
                last_shot_ms: None,
            },
        }
    }

    /// One frame of the body turn controls.
    pub fn turn(&mut self, left: bool, right: bool)
        requires
            old(self).wf(),
        ensures
            *final(self) == (Body {
                angle: turned(old(self).angle as int, left, right, old(self).angular_speed as int)
                    as i64,
                ..*old(self)
            }),
            final(self).wf(),
    {
        self.angle = turn(self.angle, left, right, self.angular_speed);
    }

    /// One frame of the move controls along the heading direction `dir`.
    /// Each axis of the move is taken only where the bounding box stays
    /// strictly inside the screen, so the tank slides along a wall.
    pub fn drive(&mut self, forward: bool, backward: bool, dir: Vec2i, screen_w: i64, screen_h: i64)
        requires
            old(self).wf(),
            dir.is_direction(),
            valid_screen(screen_w as int, screen_h as int),
        ensures
            final(self).pos.x == clamp_axis(
                old(self).pos.x as int,
                velocity(dir.x as int, old(self).speed as int, forward, backward),
                old(self).width as int,
                screen_w as int,
            ),
            final(self).pos.y == clamp_axis(
                old(self).pos.y as int,
                velocity(dir.y as int, old(self).speed as int, forward, backward),
                old(self).height as int,
                screen_h as int,
            ),
            *final(self) == (Body { pos: final(self).pos, ..*old(self) }),
            final(self).wf(),
            within(old(self).pos.x as int, old(self).width as int, screen_w as int) ==> within(
                final(self).pos.x as int,
                old(self).width as int,
                screen_w as int,
            ),
            within(old(self).pos.y as int, old(self).height as int, screen_h as int) ==> within(
                final(self).pos.y as int,
                old(self).height as int,
                screen_h as int,
            ),
    {
        let vx = axis_velocity(dir.x, self.speed, forward, backward);
        let vy = axis_velocity(dir.y, self.speed, forward, backward);
        let mx = self.pos.x + vx;
        let my = self.pos.y + vy;
        if 0 < 2 * mx - self.width && 2 * mx + self.width < 2 * screen_w {
            self.pos.x = mx;
        }
        if 0 < 2 * my - self.height && 2 * my + self.height < 2 * screen_h {
            self.pos.y = my;
        }
    }

    /// Where a shot along the aim direction `dir` leaves the barrel.
    pub fn muzzle(&self, dir: Vec2i) -> (r: Vec2i)
        requires
            self.wf(),
            dir.is_direction(),
        ensures
            r.x == self.pos.x + muzzle_offset(dir.x as int, self.height as int),
            r.y == self.pos.y + muzzle_offset(dir.y as int, self.height as int),
            r == muzzle_at(self.pos, dir, self.height as int),
    {
        let ox = offset_along(dir.x, self.height);
        let oy = offset_along(dir.y, self.height);
        Vec2i::new(self.pos.x + ox, self.pos.y + oy)
    }
}

/// One axis of the per-frame displacement.
fn axis_velocity(dir: i64, speed: i64, forward: bool, backward: bool) -> (r: i64)
    requires
        -UNIT <= dir <= UNIT,
        0 <= speed <= MAX_SPEED,
    ensures
        r == velocity(dir as int, speed as int, forward, backward),
        -UNIT * MAX_SPEED <= r <= UNIT * MAX_SPEED,
{
    assert(-UNIT * MAX_SPEED <= dir * speed <= UNIT * MAX_SPEED) by (nonlinear_arith)
        requires
            -UNIT <= dir <= UNIT,
            0 <= speed <= MAX_SPEED,
    ;
    let step = dir * speed;
    let mut v: i64 = 0;
    if forward {
        v = v + step;
    }
    if backward {
        v = v - step;
    }
    v
}

/// One axis of the muzzle offset.
fn offset_along(dir: i64, height: i64) -> (r: i64)
    requires
        -UNIT <= dir <= UNIT,
        0 <= height <= MAX_COORD,
    ensures
        r == muzzle_offset(dir as int, height as int),
        -MAX_COORD <= r <= MAX_COORD,
{
    assert(-UNIT * MAX_COORD <= dir * height <= UNIT * MAX_COORD) by (nonlinear_arith)
        requires
            -UNIT <= dir <= UNIT,
            0 <= height <= MAX_COORD,
    ;
    let r = div_trunc(dir * height * 3, 5 * UNIT);
    proof {
        let n = dir * height * 3;
        if n >= 0 {
            vstd::arithmetic::div_mod::lemma_div_is_ordered(n, 3 * UNIT * MAX_COORD, 5 * UNIT as int);
            vstd::arithmetic::div_mod::lemma_div_pos_is_pos(n, 5 * UNIT as int);
        } else {
            vstd::arithmetic::div_mod::lemma_div_is_ordered(-n, 3 * UNIT * MAX_COORD, 5 * UNIT as int);
            vstd::arithmetic::div_mod::lemma_div_pos_is_pos(-n, 5 * UNIT as int);
        }
        assert((3 * UNIT * MAX_COORD) / (5 * UNIT as int) <= MAX_COORD);
    }
    r
}

} // verus!