use vstd::prelude::*;

verus! {

/// Fixed-point scale: milli-pixels per pixel, milli-degrees per degree,
/// and the length of a unit direction vector.
pub const UNIT: i64 = 1000;

/// One full turn in milli-degrees.
pub const FULL_TURN: i64 = 360_000;

/// Largest screen extent, position or sprite size, in milli-pixels.
pub const MAX_COORD: i64 = 1_000_000_000_000;

/// Largest linear speed, in pixels per frame.
pub const MAX_SPEED: i64 = 1_000_000;

/// A point or a vector in fixed-point screen coordinates.
#[derive(Clone, Copy, Debug, PartialEq, Eq, Structural)]
pub struct Vec2i {
    pub x: i64,
    pub y: i64,
}

impl Vec2i {
    pub fn new(x: i64, y: i64) -> (r: Vec2i)
        ensures
            r.x == x,
            r.y == y,
    {
        Vec2i { x, y }
    }

    /// A direction vector whose components are at most one unit long.
    pub open spec fn is_direction(&self) -> bool {
        -UNIT <= self.x <= UNIT && -UNIT <= self.y <= UNIT
    }
}

/// Division rounding toward zero, as integer division does on machine words.
pub open spec fn div_toward_zero(n: int, d: int) -> int {
    if n >= 0 {
        n / d
    } else {
        -((-n) / d)
    }
}

/// `n / d` rounded toward zero, for a positive divisor.
pub fn div_trunc(n: i64, d: i64) -> (r: i64)
    requires
        d > 0,
        n > i64::MIN,
    ensures
        r == div_toward_zero(n as int, d as int),
{
    if n >= 0 {
        n / d
    } else {
        -((-n) / d)
    }
}

} // verus!
