//! The bounded particle pool: spawn, Euler integration, boundary bounces
//! and low-water-mark compaction.
//!
//! The pool is an append-only arena bracketed by two cursors: `min_pt`, the
//! lowest index that may still hold a live particle, and the high-water mark,
//! one past the highest index ever allocated (here the vector's length).
//! Slots are never reused: a particle dies in place and is abandoned once
//! compaction advances `min_pt` past it.

use vstd::prelude::*;

use crate::fx;
use crate::fx::{fdiv, fmul, sat64, tdiv, SCALE};
use crate::rng::{lemma_rng_skip_add, rng_next, rng_skip, Rng};

verus! {

/// Left wall of the bounding box, in fixed-point world units.
pub const MIN_X: i64 = -80_000_000;

/// Right wall of the bounding box.
pub const MAX_X: i64 = 80_000_000;

/// Floor of the bounding box.
pub const MIN_Y: i64 = -90_000_000;

/// Ceiling of the bounding box; particles spawn at this height.
pub const MAX_Y: i64 = 50_000_000;

/// Near wall of the bounding box.
pub const MIN_DEPTH: i64 = 50_000_000;

/// Far wall of the bounding box.
pub const MAX_DEPTH: i64 = 250_000_000;

/// Height at which every particle spawns.
pub const START_Y: i64 = 50_000_000;

/// Depth around which every particle spawns.
pub const START_DEPTH: i64 = 200_000_000;

/// Width of the spawn jitter window, as an integer draw range.
pub const START_RANGE: u32 = 15;

/// Half the spawn jitter window, in fixed-point units.
pub const START_HALF_RANGE: i64 = 7_500_000;

/// Spawn velocities are drawn per axis from `[0, MAX_INIT_VEL)` units per second.
pub const MAX_INIT_VEL: u32 = 7;

/// The radius draw range: a draw below this, divided by 200, gives the radius.
pub const RADIUS_MOD: u32 = 400;

/// Fixed-point value of one radius draw step, 1/200 of a unit.
pub const RADIUS_UNIT: i64 = 5_000;

/// Upper bound on any radius the spawn rule can produce.
pub const MAX_RADIUS: i64 = 2_000_000;

/// Gravity, subtracted from the vertical velocity once per frame
/// (deliberately not scaled by the frame duration).
pub const GRAV: i64 = 500_000;

/// The bounce multiplier: a wall reflects the axis velocity and
/// amplifies it by a tenth, a deliberate energy-gaining response.
pub const BOUNCE: i64 = -1_100_000;

/// One pool slot.
#[derive(Clone, Copy)]
pub struct Particle {
    /// Position, in fixed-point world units.
    pub x: i64,
    /// Position.
    pub y: i64,
    /// Position.
    pub z: i64,
    /// Velocity, in fixed-point units per second.
    pub vx: i64,
    /// Velocity.
    pub vy: i64,
    /// Velocity.
    pub vz: i64,
    /// Radius, in fixed-point units; strictly positive while live.
    pub r: i64,
    /// Remaining lifetime, in fixed-point seconds.
    pub life: i64,
    /// Liveness flag: a dead slot is inert and skipped by every pass
    /// except compaction; its other fields are unspecified.
    pub live: bool,
}

/// The mathematical value of a pool slot.
pub struct PtV {
    /// Position.
    pub x: int,
    /// Position.
    pub y: int,
    /// Position.
    pub z: int,
    /// Velocity.
    pub vx: int,
    /// Velocity.
    pub vy: int,
    /// Velocity.
    pub vz: int,
    /// Radius.
    pub r: int,
    /// Remaining lifetime.
    pub life: int,
    /// Liveness flag.
    pub live: bool,
}

/// The mathematical value of a particle.
pub open spec fn pv(p: Particle) -> PtV {
    PtV {
        x: p.x as int,
        y: p.y as int,
        z: p.z as int,
        vx: p.vx as int,
        vy: p.vy as int,
        vz: p.vz as int,
        r: p.r as int,
        life: p.life as int,
        live: p.live,
    }
}

/// One Euler integration step of a live particle: position advances by
/// velocity, velocity is perturbed by wind in inverse proportion to the
/// radius, gravity pulls once per frame, and the particle dies when its
/// remaining lifetime is exhausted.
pub open spec fn integrate_pt(p: PtV, wx: int, wy: int, wz: int, dt: int) -> PtV
    recommends
        p.r > 0,
{
    let life2 = sat64(p.life - dt);
    PtV {
        x: sat64(p.x + fmul(p.vx, dt)),
        y: sat64(p.y + fmul(p.vy, dt)),
        z: sat64(p.z + fmul(p.vz, dt)),
        vx: sat64(p.vx + fdiv(wx, p.r)),
        vy: sat64(sat64(p.vy + fdiv(wy, p.r)) - GRAV),
        vz: sat64(p.vz + fdiv(wz, p.r)),
        r: p.r,
        life: life2,
        live: life2 > 0,
    }
}

/// Integration over a pool window: every live slot at or past `min` steps,
/// every other slot is untouched.
pub open spec fn integrate_seq(s: Seq<PtV>, min: int, wx: int, wy: int, wz: int, dt: int) -> Seq<
    PtV,
> {
    Seq::new(
        s.len(),
        |i: int|
            if min <= i && s[i].live {
                integrate_pt(s[i], wx, wy, wz, dt)
            } else {
                s[i]
            },
    )
}

/// Boundary resolution of a live particle, each axis in turn: a coordinate
/// past a wall is clamped one radius inside it and the axis velocity is
/// reflected and amplified by a tenth.
pub open spec fn collide_pt(p: PtV) -> PtV
    recommends
        0 < p.r <= MAX_RADIUS,
{
    let xa = if p.x < MIN_X {
        (MIN_X + p.r, fmul(p.vx, BOUNCE as int))
    } else {
        (p.x, p.vx)
    };
    let xb = if xa.0 > MAX_X {
        (MAX_X - p.r, fmul(xa.1, BOUNCE as int))
    } else {
        xa
    };
    let ya = if p.y < MIN_Y {
        (MIN_Y + p.r, fmul(p.vy, BOUNCE as int))
    } else {
        (p.y, p.vy)
    };
    let yb = if ya.0 > MAX_Y {
        (MAX_Y - p.r, fmul(ya.1, BOUNCE as int))
    } else {
        ya
    };
    let za = if p.z < MIN_DEPTH {
        (MIN_DEPTH + p.r, fmul(p.vz, BOUNCE as int))
    } else {
        (p.z, p.vz)
    };
    let zb = if za.0 > MAX_DEPTH {
        (MAX_DEPTH - p.r, fmul(za.1, BOUNCE as int))
    } else {
        za
    };
    PtV { x: xb.0, y: yb.0, z: zb.0, vx: xb.1, vy: yb.1, vz: zb.1, r: p.r, life: p.life, live: p.live }
}

/// Boundary resolution over a pool window.
pub open spec fn collide_seq(s: Seq<PtV>, min: int) -> Seq<PtV> {
    Seq::new(
        s.len(),
        |i: int|
            if min <= i && s[i].live {
                collide_pt(s[i])
            } else {
                s[i]
            },
    )
}

/// The radius produced by one spawn draw: the draw divided by 200, raised
/// to the smallest positive step when the draw is zero, so that a radius is
/// never zero (wind strength divides by it).
pub open spec fn radius_of(d: u32) -> int {
    if d % RADIUS_MOD == 0 {
        RADIUS_UNIT as int
    } else {
        (d % RADIUS_MOD) * (RADIUS_UNIT as int)
    }
}

/// The particle spawned from generator state `s`, consuming seven draws in
/// order: horizontal jitter, depth jitter, the three velocity axes, radius,
/// lifetime. Lifetime is drawn in whole milliseconds below `max_life_ms`.
pub open spec fn spawn_pt(s: u32, max_life_ms: u32) -> PtV
    recommends
        max_life_ms > 0,
{
    PtV {
        x: (rng_skip(s, 1) % START_RANGE) * (SCALE as int) - START_HALF_RANGE,
        y: START_Y as int,
        z: START_DEPTH + (rng_skip(s, 2) % START_RANGE) * (SCALE as int) - START_HALF_RANGE,
        vx: (rng_skip(s, 3) % MAX_INIT_VEL) * (SCALE as int),
        vy: (rng_skip(s, 4) % MAX_INIT_VEL) * (SCALE as int),
        vz: (rng_skip(s, 5) % MAX_INIT_VEL) * (SCALE as int),
        r: radius_of(rng_skip(s, 6)),
        life: (rng_skip(s, 7) % max_life_ms) * 1000,
        live: true,
    }
}

/// The `n` particles spawned in order from generator state `s`.
pub open spec fn spawn_seq(s: u32, n: nat, max_life_ms: u32) -> Seq<PtV>
    decreases n,
{
    if n == 0 {
        Seq::empty()
    } else {
        spawn_seq(s, (n - 1) as nat, max_life_ms).push(
            spawn_pt(rng_skip(s, 7 * (n - 1) as nat), max_life_ms),
        )
    }
}

/// Length and elementwise shape of a spawn batch.
pub proof fn lemma_spawn_seq_props(s: u32, n: nat, max_life_ms: u32)
    ensures
        spawn_seq(s, n, max_life_ms).len() == n,
        forall|i: int|
            0 <= i < n ==> spawn_seq(s, n, max_life_ms)[i] == spawn_pt(
                rng_skip(s, (7 * i) as nat),
                max_life_ms,
            ),
    decreases n,
{
    if n > 0 {
        lemma_spawn_seq_props(s, (n - 1) as nat, max_life_ms);
    }
}

/// How many particles a spawn call of `secs` seconds produces at
/// `pps` particles per second: the real product, rounded down.
pub open spec fn spawn_count(secs: int, pps: int) -> int
    recommends
        secs >= 0,
{
    tdiv(secs * pps, SCALE as int)
}

/// A live particle's fields handed to render submission.
#[derive(Clone, Copy)]
pub struct RenderPt {
    /// Position.
    pub x: i64,
    /// Position.
    pub y: i64,
    /// Position.
    pub z: i64,
    /// Radius.
    pub r: i64,
}

/// The render hand-off: position and radius of each live particle of the
/// window, in slot order.
pub open spec fn render_seq(s: Seq<PtV>, min: int) -> Seq<PtV> {
    s.subrange(min, s.len() as int).filter(|p: PtV| p.live)
}

/// The fixed-capacity particle pool.
pub struct Pool {
    /// The slots allocated so far; the length is the high-water mark.
    pub pts: Vec<Particle>,
    /// Low-water mark: every slot below it is dead.
    pub min_pt: usize,
    /// Capacity: the high-water mark never passes it.
    pub max_pts: usize,
}

impl Pool {
    /// The mathematical value of the pool's slots.
    pub open spec fn model(self) -> Seq<PtV> {
        Seq::new(self.pts@.len(), |i: int| pv(self.pts@[i]))
    }

    /// The high-water mark: one past the highest index ever allocated.
    pub open spec fn max_pt(self) -> int {
        self.pts@.len() as int
    }

    /// Pool well-formedness: the cursors bracket the arena, every slot
    /// below the low-water mark is dead, and every live slot carries a
    /// positive, bounded radius.
    pub open spec fn wf(self) -> bool {
        &&& self.min_pt as int <= self.pts@.len()
        &&& self.pts@.len() <= self.max_pts as int
        &&& forall|i: int| 0 <= i < self.min_pt as int ==> !self.model()[i].live
        &&& forall|i: int|
            0 <= i < self.pts@.len() && self.model()[i].live ==> 0 < self.model()[i].r
                <= MAX_RADIUS
    }

    /// An empty pool sized for `max_pts` particles.
    pub fn new(max_pts: usize) -> (p: Pool)
        ensures
            p.wf(),
            p.min_pt == 0,
            p.max_pts == max_pts,
            p.model() == Seq::<PtV>::empty(),
    {
        let p = Pool { pts: Vec::new(), min_pt: 0, max_pts };
        proof {
            assert(p.model() =~= Seq::<PtV>::empty());
        }
        p
    }

    /// The number of live slots' window upper end, as a run-time value.
    pub fn high_mark(&self) -> (n: usize)
        ensures
            n as int == self.max_pt(),
    {
        self.pts.len()
    }

    /// One Euler integration pass over the live window, under wind
    /// `(wx, wy, wz)` for a frame of `dt` seconds. A dead slot is never
    /// revived, and a slot the pass kills has exhausted its lifetime.
    pub fn mov_pts(&mut self, wx: i64, wy: i64, wz: i64, dt: i64)
        requires
            old(self).wf(),
        ensures
            final(self).wf(),
            final(self).min_pt == old(self).min_pt,
            final(self).max_pts == old(self).max_pts,
            final(self).model() == integrate_seq(
                old(self).model(),
                old(self).min_pt as int,
                wx as int,
                wy as int,
                wz as int,
                dt as int,
            ),
            forall|j: int|
                0 <= j < old(self).model().len() && !old(self).model()[j].live
                    ==> !final(self).model()[j].live,
            forall|j: int|
                0 <= j < old(self).model().len() && old(self).model()[j].live
                    && !final(self).model()[j].live ==> final(self).model()[j].life <= 0,
    {
        let ghost m0 = self.model();
        let ghost min0 = self.min_pt as int;
        let ghost target = integrate_seq(m0, min0, wx as int, wy as int, wz as int, dt as int);
        let n = self.pts.len();
        let mut i: usize = self.min_pt;
        while i < n
            invariant
                self.min_pt == old(self).min_pt,
                self.max_pts == old(self).max_pts,
                min0 == self.min_pt as int,
                m0 == old(self).model(),
                target == integrate_seq(m0, min0, wx as int, wy as int, wz as int, dt as int),
                self.min_pt <= i <= n,
                n == self.pts@.len(),
                n == m0.len(),
                self.max_pts >= n,
                forall|j: int| 0 <= j < min0 ==> !m0[j].live,
                forall|j: int| 0 <= j < n && m0[j].live ==> 0 < m0[j].r <= MAX_RADIUS,
                forall|j: int| 0 <= j < i ==> self.model()[j] == target[j],
                forall|j: int| i <= j < n ==> self.model()[j] == m0[j],
            decreases n - i,
        {
            let p = self.pts[i];
            proof {
                assert(self.model()[i as int] == pv(p));
                assert(self.model()[i as int] == m0[i as int]);
            }
            if p.live {
                proof {
                    assert(0 < m0[i as int].r <= MAX_RADIUS);
                }
                let x = fx::fp_add(p.x, fx::fp_mul(p.vx, dt));
                let y = fx::fp_add(p.y, fx::fp_mul(p.vy, dt));
                let z = fx::fp_add(p.z, fx::fp_mul(p.vz, dt));
                let vx = fx::fp_add(p.vx, fx::fp_div(wx, p.r));
                let vy = fx::fp_sub(fx::fp_add(p.vy, fx::fp_div(wy, p.r)), GRAV);
                let vz = fx::fp_add(p.vz, fx::fp_div(wz, p.r));
                let life = fx::fp_sub(p.life, dt);
                let np = Particle { x, y, z, vx, vy, vz, r: p.r, life, live: life > 0 };
                proof {
                    assert(pv(np) == integrate_pt(
                        m0[i as int],
                        wx as int,
                        wy as int,
                        wz as int,
                        dt as int,
                    ));
                }
                self.pts[i] = np;
            }
            i += 1;
        }
        proof {
            assert(self.model() =~= target);
            assert forall|j: int| 0 <= j < self.min_pt as int implies !self.model()[j].live by {
                assert(target[j] == m0[j]);
            }
            assert forall|j: int|
                0 <= j < self.pts@.len() && self.model()[j].live implies 0 < self.model()[j].r
                <= MAX_RADIUS by {
                assert(target[j].r == m0[j].r);
            }
        }
    }

    /// One boundary-resolution pass over the live window: each live
    /// particle is clamped inside the box and reflected, axis by axis.
    pub fn check_colls(&mut self)
        requires
            old(self).wf(),
        ensures
            final(self).wf(),
            final(self).min_pt == old(self).min_pt,
            final(self).max_pts == old(self).max_pts,
            final(self).model() == collide_seq(old(self).model(), old(self).min_pt as int),
    {
        let ghost m0 = self.model();
        let ghost min0 = self.min_pt as int;
        let ghost target = collide_seq(m0, min0);
        let n = self.pts.len();
        let mut i: usize = self.min_pt;
        while i < n
            invariant
                self.min_pt == old(self).min_pt,
                self.max_pts == old(self).max_pts,
                min0 == self.min_pt as int,
                m0 == old(self).model(),
                target == collide_seq(m0, min0),
                self.min_pt <= i <= n,
                n == self.pts@.len(),
                n == m0.len(),
                self.max_pts >= n,
                forall|j: int| 0 <= j < min0 ==> !m0[j].live,
                forall|j: int| 0 <= j < n && m0[j].live ==> 0 < m0[j].r <= MAX_RADIUS,
                forall|j: int| 0 <= j < i ==> self.model()[j] == target[j],
                forall|j: int| i <= j < n ==> self.model()[j] == m0[j],
            decreases n - i,
        {
            let p = self.pts[i];
            proof {
                assert(self.model()[i as int] == pv(p));
                assert(self.model()[i as int] == m0[i as int]);
            }
            if p.live {
                proof {
                    assert(0 < m0[i as int].r <= MAX_RADIUS);
                }
                let mut np = p;
                if np.x < MIN_X {
                    np.x = MIN_X + np.r;
                    np.vx = fx::fp_mul(np.vx, BOUNCE);
                }
                if np.x > MAX_X {
                    np.x = MAX_X - np.r;
                    np.vx = fx::fp_mul(np.vx, BOUNCE);
                }
                if np.y < MIN_Y {
                    np.y = MIN_Y + np.r;
                    np.vy = fx::fp_mul(np.vy, BOUNCE);
                }
                if np.y > MAX_Y {
                    np.y = MAX_Y - np.r;
                    np.vy = fx::fp_mul(np.vy, BOUNCE);
                }
                if np.z < MIN_DEPTH {
                    np.z = MIN_DEPTH + np.r;
                    np.vz = fx::fp_mul(np.vz, BOUNCE);
                }
                if np.z > MAX_DEPTH {
                    np.z = MAX_DEPTH - np.r;
                    np.vz = fx::fp_mul(np.vz, BOUNCE);
                }
                proof {
                    assert(pv(np) == collide_pt(m0[i as int]));
                }
                self.pts[i] = np;
            }
            i += 1;
        }
        proof {
            assert(self.model() =~= target);
            assert forall|j: int| 0 <= j < self.min_pt as int implies !self.model()[j].live by {
                assert(target[j] == m0[j]);
            }
            assert forall|j: int|
                0 <= j < self.pts@.len() && self.model()[j].live implies 0 < self.model()[j].r
                <= MAX_RADIUS by {
                assert(target[j].r == m0[j].r);
            }
        }
    }

    /// Low-water-mark compaction: advances `min_pt` to the first live slot
    /// at or past it; when no slot in the window is live, `min_pt` is left
    /// unchanged. The mark never moves backwards and every slot it abandons
    /// is dead. Slot contents are untouched.
    pub fn cleanup_pt_pool(&mut self)
        requires
            old(self).wf(),
        ensures
            final(self).wf(),
            final(self).model() == old(self).model(),
            final(self).max_pts == old(self).max_pts,
            final(self).min_pt >= old(self).min_pt,
            forall|j: int|
                old(self).min_pt <= j < final(self).min_pt ==> !old(self).model()[j].live,
            (exists|j: int|
                old(self).min_pt <= j < old(self).model().len() && old(self).model()[j].live)
                ==> final(self).min_pt < old(self).model().len() && old(self).model()[final(self).min_pt as int].live,
            (forall|j: int|
                old(self).min_pt <= j < old(self).model().len() ==> !old(self).model()[j].live)
                ==> final(self).min_pt == old(self).min_pt,
    {
        let n = self.pts.len();
        let mut i: usize = self.min_pt;
        while i < n
            invariant
                *self == *old(self),
                self.wf(),
                self.min_pt <= i <= n,
                n == self.pts@.len(),
                forall|j: int| self.min_pt <= j < i ==> !self.model()[j].live,
            decreases n - i,
        {
            let p = self.pts[i];
            proof {
                assert(self.model()[i as int] == pv(p));
            }
            if p.live {
                self.min_pt = i;
                return ;
            }
            i += 1;
        }
    }

    /// Spawns `floor(secs · pps)` particles drawn from the generator,
    /// appending each at the high-water mark. Returns `false`, changing
    /// nothing, exactly when the batch would pass the pool's capacity —
    /// the fatal sizing-invariant violation the caller must treat as such.
    pub fn spwn_pts(&mut self, rng: &mut Rng, secs: i64, pps: u32, max_life_ms: u32) -> (ok: bool)
        requires
            old(self).wf(),
            secs >= 0,
            max_life_ms > 0,
        ensures
            final(self).wf(),
            final(self).min_pt == old(self).min_pt,
            final(self).max_pts == old(self).max_pts,
            ok <==> old(self).model().len() + spawn_count(secs as int, pps as int) <= old(
                self,
            ).max_pts,
            !ok ==> *final(self) == *old(self) && *final(rng) == *old(rng),
            ok ==> final(self).model() == old(self).model() + spawn_seq(
                old(rng).seed,
                spawn_count(secs as int, pps as int) as nat,
                max_life_ms,
            ) && final(rng).seed == rng_skip(
                old(rng).seed,
                (7 * spawn_count(secs as int, pps as int)) as nat,
            ),
    {
        proof {
            assert((secs as int) * (pps as int) < 0x8000_0000_0000_0000_0000_0000int)
                by (nonlinear_arith)
                requires
                    0 <= secs <= i64::MAX,
                    0 <= pps <= u32::MAX,
            ;
        }
        let num: u128 = (secs as u128) * (pps as u128) / 1_000_000u128;
        proof {
            assert(num == spawn_count(secs as int, pps as int));
        }
        let remaining: usize = self.max_pts - self.pts.len();
        if num > remaining as u128 {
            return false;
        }
        let count: usize = num as usize;
        let ghost m0 = self.model();
        let ghost s0 = rng.seed;
        let ghost min0 = self.min_pt as int;
        proof {
            assert(m0 + spawn_seq(s0, 0, max_life_ms) =~= m0);
        }
        let mut k: usize = 0;
        while k < count
            invariant
                self.min_pt == old(self).min_pt,
                self.max_pts == old(self).max_pts,
                m0 == old(self).model(),
                min0 == self.min_pt as int,
                k <= count,
                max_life_ms > 0,
                self.pts@.len() == m0.len() + k,
                m0.len() + count <= self.max_pts,
                forall|j: int| 0 <= j < min0 ==> !m0[j].live,
                min0 <= m0.len(),
                forall|j: int| 0 <= j < m0.len() && m0[j].live ==> 0 < m0[j].r <= MAX_RADIUS,
                self.wf(),
                rng.seed == rng_skip(s0, (7 * k) as nat),
                self.model() == m0 + spawn_seq(s0, k as nat, max_life_ms),
            decreases count - k,
        {
            let ghost base = rng.seed;
            let d1 = rng.next_mod(START_RANGE);
            let d2 = rng.next_mod(START_RANGE);
            let d3 = rng.next_mod(MAX_INIT_VEL);
            let d4 = rng.next_mod(MAX_INIT_VEL);
            let d5 = rng.next_mod(MAX_INIT_VEL);
            let d6 = rng.next_mod(RADIUS_MOD);
            let d7 = rng.next_mod(max_life_ms);
            let r: i64 = if d6 == 0 {
                RADIUS_UNIT
            } else {
                (d6 as i64) * RADIUS_UNIT
            };
            let p = Particle {
                x: (d1 as i64) * 1_000_000 - 7_500_000,
                y: START_Y,
                z: START_DEPTH + (d2 as i64) * 1_000_000 - 7_500_000,
                vx: (d3 as i64) * 1_000_000,
                vy: (d4 as i64) * 1_000_000,
                vz: (d5 as i64) * 1_000_000,
                r,
                life: (d7 as i64) * 1_000,
                live: true,
            };
            proof {
                lemma_rng_skip_add(s0, (7 * k) as nat, 7);
                assert(rng_skip(base, 0) == base);
                assert(rng_skip(base, 1) == rng_next(rng_skip(base, 0)));
                assert(rng_skip(base, 2) == rng_next(rng_skip(base, 1)));
                assert(rng_skip(base, 3) == rng_next(rng_skip(base, 2)));
                assert(rng_skip(base, 4) == rng_next(rng_skip(base, 3)));
                assert(rng_skip(base, 5) == rng_next(rng_skip(base, 4)));
                assert(rng_skip(base, 6) == rng_next(rng_skip(base, 5)));
                assert(rng_skip(base, 7) == rng_next(rng_skip(base, 6)));
                assert(pv(p) == spawn_pt(base, max_life_ms));
            }
            let ghost pre = self.pts@;
            let ghost pre_model = self.model();
            self.pts.push(p);
            proof {
                lemma_spawn_seq_props(s0, k as nat, max_life_ms);
                lemma_spawn_seq_props(s0, (k + 1) as nat, max_life_ms);
                let target2 = m0 + spawn_seq(s0, (k + 1) as nat, max_life_ms);
                assert(self.pts@ == pre.push(p));
                assert forall|j: int| 0 <= j < self.pts@.len() implies self.model()[j]
                    == target2[j] by {
                    if j < pre.len() {
                        assert(self.pts@[j] == pre[j]);
                        assert(self.model()[j] == pre_model[j]);
                        assert(pre_model[j] == (m0 + spawn_seq(s0, k as nat, max_life_ms))[j]);
                        if j >= m0.len() {
                            assert(spawn_seq(s0, k as nat, max_life_ms)[j - m0.len()]
                                == spawn_pt(
                                rng_skip(s0, (7 * (j - m0.len())) as nat),
                                max_life_ms,
                            ));
                            assert(spawn_seq(s0, (k + 1) as nat, max_life_ms)[j - m0.len()]
                                == spawn_pt(
                                rng_skip(s0, (7 * (j - m0.len())) as nat),
                                max_life_ms,
                            ));
                        }
                    } else {
                        assert(j == pre.len());
                        assert(self.model()[j] == pv(p));
                        assert(target2[j] == spawn_seq(s0, (k + 1) as nat, max_life_ms)[k as int]);
                        assert(spawn_seq(s0, (k + 1) as nat, max_life_ms)[k as int] == spawn_pt(
                            rng_skip(s0, (7 * k) as nat),
                            max_life_ms,
                        ));
                    }
                }
                assert(self.model() =~= m0 + spawn_seq(s0, (k + 1) as nat, max_life_ms));
            }
            k += 1;
        }
        true
    }

    /// The render hand-off: position and radius of every live particle of
    /// the window, in slot order. Coordinate conventions of the submission
    /// (depth negation, diameter scaling) are the renderer's business.
    pub fn live_particles(&self) -> (out: Vec<RenderPt>)
        requires
            self.wf(),
        ensures
            out@.len() == render_seq(self.model(), self.min_pt as int).len(),
            forall|j: int|
                0 <= j < out@.len() ==> {
                    let q = render_seq(self.model(), self.min_pt as int)[j];
                    (#[trigger] out@[j]).x == q.x && out@[j].y == q.y && out@[j].z == q.z
                        && out@[j].r == q.r
                },
    {
        let ghost m = self.model();
        let ghost min0 = self.min_pt as int;
        let mut out: Vec<RenderPt> = Vec::new();
        let n = self.pts.len();
        let mut i: usize = self.min_pt;
        proof {
            assert(m.subrange(min0, min0).filter(|p: PtV| p.live) =~= Seq::<PtV>::empty());
            reveal(Seq::filter);
        }
        while i < n
            invariant
                min0 == self.min_pt as int,
                m == self.model(),
                self.min_pt <= i <= n,
                n == self.pts@.len(),
                n == m.len(),
                out@.len() == m.subrange(min0, i as int).filter(|p: PtV| p.live).len(),
                forall|j: int|
                    0 <= j < out@.len() ==> {
                        let q = m.subrange(min0, i as int).filter(|p: PtV| p.live)[j];
                        (#[trigger] out@[j]).x == q.x && out@[j].y == q.y && out@[j].z == q.z
                            && out@[j].r == q.r
                    },
            decreases n - i,
        {
            let p = self.pts[i];
            proof {
                assert(m[i as int] == pv(p));
                lemma_filter_push(m.subrange(min0, i as int), m[i as int], |p: PtV| p.live);
                assert(m.subrange(min0, i + 1 as int) =~= m.subrange(min0, i as int).push(
                    m[i as int],
                ));
            }
            if p.live {
                out.push(RenderPt { x: p.x, y: p.y, z: p.z, r: p.r });
                proof {
                    assert((|p: PtV| p.live)(m[i as int]));
                    assert(m.subrange(min0, i + 1 as int).filter(|p: PtV| p.live) == m.subrange(
                        min0,
                        i as int,
                    ).filter(|p: PtV| p.live).push(m[i as int]));
                    assert(out@.len() == m.subrange(min0, i + 1 as int).filter(|p: PtV| p.live).len());
                }
            } else {
                proof {
                    assert(!((|p: PtV| p.live)(m[i as int])));
                    assert(m.subrange(min0, i + 1 as int).filter(|p: PtV| p.live) == m.subrange(
                        min0,
                        i as int,
                    ).filter(|p: PtV| p.live));
                }
            }
            i += 1;
        }
        proof {
            assert(m.subrange(min0, n as int) =~= m.subrange(min0, m.len() as int));
        }
        out
    }
}

/// Filtering distributes over appending one element.
proof fn lemma_filter_push<A>(s: Seq<A>, x: A, pred: spec_fn(A) -> bool)
    ensures
        s.push(x).filter(pred) == (if pred(x) {
            s.filter(pred).push(x)
        } else {
            s.filter(pred)
        }),
{
    reveal(Seq::filter);
    assert(s.push(x).drop_last() =~= s);
    assert(s.push(x).last() == x);
}

/// Pool bounds law: the cursors bracket the arena within its capacity and
/// no live slot lies outside the half-open window they delimit.
pub proof fn lemma_pool_bounds(p: Pool)
    requires
        p.wf(),
    ensures
        0 <= p.min_pt as int <= p.max_pt() <= p.max_pts as int,
        forall|i: int|
            0 <= i < p.model().len() && p.model()[i].live ==> p.min_pt as int <= i < p.max_pt(),
{
}

/// Liveness law over one integration pass: a dead slot stays dead, and a
/// slot the pass kills has exhausted its lifetime.
pub proof fn lemma_liveness_monotone(s: Seq<PtV>, min: int, wx: int, wy: int, wz: int, dt: int)
    ensures
        forall|i: int|
            0 <= i < s.len() && !s[i].live ==> !integrate_seq(s, min, wx, wy, wz, dt)[i].live,
        forall|i: int|
            0 <= i < s.len() && s[i].live && !integrate_seq(s, min, wx, wy, wz, dt)[i].live
                ==> integrate_seq(s, min, wx, wy, wz, dt)[i].life <= 0,
{
}

/// Bounce law: a live particle past the left wall with inbound velocity
/// exactly -5 leaves boundary resolution clamped one radius inside the wall
/// with velocity exactly +5.5 — reflected and amplified by a tenth.
pub proof fn lemma_bounce_energy_gain(p: PtV)
    requires
        p.live,
        0 < p.r <= MAX_RADIUS,
        p.x < MIN_X,
        p.vx == -5 * SCALE,
    ensures
        collide_pt(p).x == MIN_X + p.r,
        collide_pt(p).vx == 5_500_000,
{
    assert(fmul(-5_000_000, -1_100_000) == 5_500_000) by {
        assert(tdiv(5_500_000_000_000int, 1_000_000int) == 5_500_000);
    }
}

} // verus!
