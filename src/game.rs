use vstd::prelude::*;
use crate::units::{Vec2i, FULL_TURN};
use crate::angle::{turned, aimed};
use crate::tank::{BODY_SCALE, Body, initial_body, Turret, clamp_axis, within, cooled_down, muzzle_at, valid_screen, velocity};
use crate::bullet::{Bullet, advance_bullets, advanced, cull_bullets, lemma_culled_wf, on_screen, spawned};

verus! {

/// The controls read once per frame.
#[derive(Clone, Copy, Debug, PartialEq, Eq, Structural)]
pub struct FrameInput {
    /// Turn the body counter-clockwise.
    pub turn_left: bool,
    /// Turn the body clockwise.
    pub turn_right: bool,
    /// Switch the turret between mouse tracking and key control (edge-triggered).
    pub toggle_aim: bool,
    /// Turn the turret counter-clockwise (key control).
    pub turret_left: bool,
    /// Turn the turret clockwise (key control).
    pub turret_right: bool,
    /// Drive forward.
    pub forward: bool,
    /// Drive backward.
    pub backward: bool,
    /// Fire key held (key control).
    pub fire_key: bool,
    /// Left mouse button held (mouse tracking).
    pub mouse_left: bool,
}

/// The player's tank and the bullets in flight.
///
/// A frame runs `steer`, then `aim`, then `update_motion`. The cursor offset
/// that `aim` takes and the unit directions that `update_motion` takes are
/// measured from the angles as the phase before left them.
pub struct Game {
    pub player: Body,
    pub bullets: Vec<Bullet>,
}

/// Whether this frame's controls ask for a shot in the given aim mode.
pub open spec fn fire_requested(aim_mouse: bool, input: FrameInput) -> bool {
    if aim_mouse {
        input.mouse_left
    } else {
        input.fire_key
    }
}

/// The bullets of a frame before culling: the old ones one step further,
/// then the new shot, if any.
pub open spec fn before_cull(bullets: Seq<Bullet>, shot: Option<Bullet>) -> Seq<Bullet> {
    let moved = bullets.map_values(|b: Bullet| advanced(b));
    match shot {
        Some(b) => moved.push(b),
        None => moved,
    }
}

impl Game {
    pub open spec fn wf(&self) -> bool {
        &&& self.player.wf()
        &&& forall|i: int| 0 <= i < self.bullets@.len() ==> (#[trigger] self.bullets@[i]).wf()
    }

    /// A tank at the centre of the screen and no bullets.
    pub fn new(
        body_tex_w: u16,
        body_tex_h: u16,
        turret_tex_w: u16,
        turret_tex_h: u16,
        screen_w: i64,
        screen_h: i64,
    ) -> (r: Game)
        requires
            valid_screen(screen_w as int, screen_h as int),
        ensures
            r.wf(),
            r.player == initial_body(body_tex_w, body_tex_h, turret_tex_w, turret_tex_h, screen_w, screen_h),
            r.bullets@.len() == 0,
            body_tex_w * BODY_SCALE < screen_w ==> within(r.player.pos.x as int, r.player.width as int, screen_w as int),
            body_tex_h * BODY_SCALE < screen_h ==> within(r.player.pos.y as int, r.player.height as int, screen_h as int),
    {
        Game {
            player: Body::new(body_tex_w, body_tex_h, turret_tex_w, turret_tex_h, screen_w, screen_h),
            bullets: Vec::new(),
        }
    }

    /// First phase of a frame: the body turn controls, then the aim-mode
    /// toggle. The bullets are untouched.
    pub fn steer(&mut self, input: &FrameInput)
        requires
            old(self).wf(),
        ensures
            final(self).player == (Body {
                angle: turned(
                    old(self).player.angle as int,
                    input.turn_left,
                    input.turn_right,
                    old(self).player.angular_speed as int,
                ) as i64,
                turret: Turret {
                    aim_mouse: old(self).player.turret.aim_mouse != input.toggle_aim,
                    ..old(self).player.turret
                },
                ..old(self).player
            }),
            final(self).bullets@ == old(self).bullets@,
            final(self).wf(),
    {
        self.player.turn(input.turn_left, input.turn_right);
        if input.toggle_aim {
            self.player.turret.toggle_aim_mode();
        }
    }

    /// Second phase of a frame: the turret turns toward the cursor, `diff`
    /// milli-degrees from its world direction (positive is clockwise), in
    /// mouse tracking, or by its keys under key control. The bullets are
    /// untouched.
    pub fn aim(&mut self, input: &FrameInput, diff: i64)
        requires
            old(self).wf(),
            -FULL_TURN <= diff <= FULL_TURN,
        ensures
            final(self).player == (Body {
                turret: Turret {
                    angle: if old(self).player.turret.aim_mouse {
                        aimed(
                            old(self).player.turret.angle as int,
                            diff as int,
                            old(self).player.turret.angular_speed as int,
                        ) as i64
                    } else {
                        turned(
                            old(self).player.turret.angle as int,
                            input.turret_left,
                            input.turret_right,
                            old(self).player.turret.angular_speed as int,
                        ) as i64
                    },
                    ..old(self).player.turret
                },
                ..old(self).player
            }),
            final(self).bullets@ == old(self).bullets@,
            final(self).wf(),
    {
        if self.player.turret.aim_mouse {
            self.player.turret.track(diff);
        } else {
            self.player.turret.turn_by_keys(input.turret_left, input.turret_right);
        }
    }

    /// Last phase of a frame, given the unit directions of the body heading
    /// and of the turret: the body drives, the bullets fly one step, a shot
    /// is fired from the muzzle if asked for and the cooldown has passed,
    /// and the bullets off the `w` by `h` screen are dropped. Returns whether
    /// a shot was fired.
    pub fn update_motion(
        &mut self,
        input: &FrameInput,
        body_dir: Vec2i,
        turret_dir: Vec2i,
        now_ms: u64,
        w: i64,
        h: i64,
    ) -> (fired: bool)
        requires
            old(self).wf(),
            body_dir.is_direction(),
            turret_dir.is_direction(),
            valid_screen(w as int, h as int),
        ensures
            fired == (fire_requested(old(self).player.turret.aim_mouse, *input) && cooled_down(
                old(self).player.turret.last_shot_ms,
                now_ms as int,
            )),
            final(self).player.pos.x == clamp_axis(
                old(self).player.pos.x as int,
                velocity(body_dir.x as int, old(self).player.speed as int, input.forward, input.backward),
                old(self).player.width as int,
                w as int,
            ),
            final(self).player.pos.y == clamp_axis(
                old(self).player.pos.y as int,
                velocity(body_dir.y as int, old(self).player.speed as int, input.forward, input.backward),
                old(self).player.height as int,
                h as int,
            ),
            final(self).player == (Body {
                pos: final(self).player.pos,
                turret: Turret {
                    last_shot_ms: if fired {
                        Some(now_ms)
                    } else {
                        old(self).player.turret.last_shot_ms
                    },
                    ..old(self).player.turret
                },
                ..old(self).player
            }),
            final(self).bullets@ == before_cull(
                old(self).bullets@,
                if fired {
                    Some(spawned(muzzle_at(final(self).player.pos, turret_dir, old(self).player.height as int), turret_dir))
                } else {
                    None
                },
            ).filter(on_screen(w as int, h as int)),
            final(self).wf(),
            within(old(self).player.pos.x as int, old(self).player.width as int, w as int) ==> within(
                final(self).player.pos.x as int,
                old(self).player.width as int,
                w as int,
            ),
            within(old(self).player.pos.y as int, old(self).player.height as int, h as int) ==> within(
                final(self).player.pos.y as int,
                old(self).player.height as int,
                h as int,
            ),
    {
        self.player.drive(input.forward, input.backward, body_dir, w, h);
        advance_bullets(&mut self.bullets);
        let requested = if self.player.turret.aim_mouse {
            input.mouse_left
        } else {
            input.fire_key
        };
        let fired = self.player.turret.try_fire(requested, now_ms);
        if fired {
            let at = self.player.muzzle(turret_dir);
            self.bullets.push(Bullet::new(at, turret_dir));
        }
        let ghost candidates = self.bullets@;
        proof {
            assert forall|i: int| 0 <= i < candidates.len() implies (#[trigger] candidates[i]).direction.is_direction() by {
                if i < old(self).bullets@.len() {
                    assert(old(self).bullets@[i].wf());
                }
            }
            lemma_culled_wf(candidates, w as int, h as int);
        }
        cull_bullets(&mut self.bullets, w, h);
        fired
    }
}

} // verus!