//! Per-frame rules of a top-down tank: body motion with wall clamping,
//! turret aiming, fire-rate cooldown and bullet culling, in fixed-point
//! integer units (milli-pixels, milli-degrees, milliseconds).

pub mod units;
pub mod angle;
pub mod tank;
pub mod bullet;
pub mod game;
pub mod laws;
