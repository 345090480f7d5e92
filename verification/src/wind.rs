//! The wind field: a slowly varying three-axis perturbation vector.
//!
//! Each frame every axis takes a random-walk step scaled by the frame
//! duration; an axis whose magnitude passes `MAX_WIND` is reflected and
//! damped by half — a soft bounce, deliberately different from the
//! particles' amplifying bounce.

use vstd::prelude::*;

use crate::fx;
use crate::fx::{fmul, sat64};
use crate::rng::{rng_next, rng_skip, Rng};

verus! {

/// Magnitude beyond which an axis is reflected and damped.
pub const MAX_WIND: i64 = 3_000_000;

/// The jitter draw range: a draw below this, divided by it, gives the
/// raw step in `(-1, 0]` units per second once recentred.
pub const WIND_CHANGE: u32 = 2000;

/// Fixed-point value of one wind draw step, 1/2000 of a unit.
pub const WIND_UNIT: i64 = 500;

/// One axis of the wind walk: the recentred jitter draw, scaled by the
/// frame duration, is added; a magnitude beyond `MAX_WIND` is multiplied
/// by -0.5 — reflected and damped, not clamped.
pub open spec fn wind_axis(w: int, d: u32, dt: int) -> int {
    let step = fmul((d % WIND_CHANGE) * (WIND_UNIT as int) - (fx::SCALE as int), dt);
    let w2 = sat64(w + step);
    if w2 > MAX_WIND || w2 < -MAX_WIND {
        fmul(w2, -500_000)
    } else {
        w2
    }
}

/// The wind vector, in fixed-point units per second.
pub struct Wind {
    /// Horizontal component.
    pub x: i64,
    /// Vertical component.
    pub y: i64,
    /// Depth component.
    pub z: i64,
}

impl Wind {
    /// A calm wind field.
    pub fn new() -> (w: Wind)
        ensures
            w.x == 0 && w.y == 0 && w.z == 0,
    {
        Wind { x: 0, y: 0, z: 0 }
    }

    /// One frame's walk of the field, consuming three draws in axis order.
    pub fn do_wind(&mut self, rng: &mut Rng, dt: i64)
        ensures
            final(self).x as int == wind_axis(old(self).x as int, rng_skip(old(rng).seed, 1), dt as int),
            final(self).y as int == wind_axis(old(self).y as int, rng_skip(old(rng).seed, 2), dt as int),
            final(self).z as int == wind_axis(old(self).z as int, rng_skip(old(rng).seed, 3), dt as int),
            final(rng).seed == rng_skip(old(rng).seed, 3),
    {
        let ghost s0 = rng.seed;
        proof {
            assert(rng_skip(s0, 0) == s0);
            assert(rng_skip(s0, 1) == rng_next(rng_skip(s0, 0)));
            assert(rng_skip(s0, 2) == rng_next(rng_skip(s0, 1)));
            assert(rng_skip(s0, 3) == rng_next(rng_skip(s0, 2)));
        }
        let d1 = rng.next_mod(WIND_CHANGE);
        let d2 = rng.next_mod(WIND_CHANGE);
        let d3 = rng.next_mod(WIND_CHANGE);
        self.x = Self::walk_axis(self.x, d1, dt);
        self.y = Self::walk_axis(self.y, d2, dt);
        self.z = Self::walk_axis(self.z, d3, dt);
    }

    /// One axis step from an already reduced draw.
    fn walk_axis(w: i64, d: u32, dt: i64) -> (w2: i64)
        requires
            d < WIND_CHANGE,
        ensures
            w2 as int == wind_axis(w as int, d, dt as int),
    {
        let base: i64 = (d as i64) * WIND_UNIT - fx::SCALE;
        let step = fx::fp_mul(base, dt);
        let moved = fx::fp_add(w, step);
        if moved > MAX_WIND || moved < -MAX_WIND {
            fx::fp_mul(moved, -500_000)
        } else {
            moved
        }
    }
}

} // verus!
