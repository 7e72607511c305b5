//! Integer 2D vectors and componentwise clamping.
//!
//! Positions, sizes and velocities are held in plain integer units so that
//! every computation on them can be stated and checked exactly.

use vstd::prelude::*;

verus! {

/// Bound accepted for screen coordinates, in pixels.
pub const MAX_COORD: i64 = 1_000_000;

/// A 2D vector with integer components.
#[derive(Clone, Copy, PartialEq, Eq, Structural, Debug)]
pub struct Vec2 {
    pub x: i64,
    pub y: i64,
}

/// `v` clamped into the closed box `[lo, hi]`, componentwise.
pub open spec fn spec_clamp(v: Vec2, lo: Vec2, hi: Vec2) -> Vec2 {
    Vec2 { x: spec_clamp_i64(v.x, lo.x, hi.x), y: spec_clamp_i64(v.y, lo.y, hi.y) }
}

pub open spec fn spec_clamp_i64(v: i64, lo: i64, hi: i64) -> i64 {
    if v < lo {
        lo
    } else if v > hi {
        hi
    } else {
        v
    }
}

/// `v` clamped into the closed interval `[lo, hi]`, over the mathematical
/// integers.
pub open spec fn spec_clamp_int(v: int, lo: int, hi: int) -> int {
    if v < lo {
        lo
    } else if v > hi {
        hi
    } else {
        v
    }
}

/// Integer square root: the greatest `r` with `r * r <= n`.
pub fn isqrt(n: i64) -> (r: i64)
    requires
        0 <= n <= 4_000_000,
    ensures
        0 <= r,
        r * r <= n < (r + 1) * (r + 1),
{
    let mut r: i64 = 0;
    let mut next: i64 = 1;
    while next <= n
        invariant
            0 <= r <= 2000,
            r * r <= n,
            n <= 4_000_000,
            next == (r + 1) * (r + 1),
        decreases 2001 - r,
    {
        proof {
            assert(r + 1 <= 2000) by (nonlinear_arith)
                requires
                    0 <= r,
                    (r + 1) * (r + 1) <= 4_000_000,
            ;
        }
        r = r + 1;
        proof {
            assert(0 <= (r + 1) * (r + 1) <= 4_008_004) by (nonlinear_arith)
                requires
                    0 <= r <= 2000,
            ;
        }
        next = (r + 1) * (r + 1);
    }
    r
}

impl Vec2 {
    /// The origin, `(0, 0)`.
    pub fn zero() -> (r: Vec2)
        ensures
            r == (Vec2 { x: 0, y: 0 }),
    {
        Vec2 { x: 0, y: 0 }
    }

    pub fn new(x: i64, y: i64) -> (r: Vec2)
        ensures
            r == (Vec2 { x, y }),
    {
        Vec2 { x, y }
    }

    /// True when this vector lies in the closed box `[lo, hi]` componentwise.
    pub open spec fn in_box(self, lo: Vec2, hi: Vec2) -> bool {
        lo.x <= self.x <= hi.x && lo.y <= self.y <= hi.y
    }

    /// Clamp into the closed box `[lo, hi]`, componentwise.
    pub fn clamp(self, lo: Vec2, hi: Vec2) -> (r: Vec2)
        requires
            lo.x <= hi.x,
            lo.y <= hi.y,
        ensures
            r == spec_clamp(self, lo, hi),
            r.in_box(lo, hi),
    {
        let x = if self.x < lo.x {
            lo.x
        } else if self.x > hi.x {
            hi.x
        } else {
            self.x
        };
        let y = if self.y < lo.y {
            lo.y
        } else if self.y > hi.y {
            hi.y
        } else {
            self.y
        };
        Vec2 { x, y }
    }
}

} // verus!
