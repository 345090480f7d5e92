//! The simulation driver: explicit run state and the per-frame step.
//!
//! The frame loop itself belongs to the caller, who owns the clock and the
//! renderer. Each frame the caller runs [`Simulation::sim_frame`] (integrate,
//! wind, conditional spawn, conditional compaction, boundary resolution),
//! hands the live particles to its renderer, and closes the frame with
//! [`Simulation::end_frame`], passing the measured wall-clock and
//! GPU-submission durations; that call does the timing bookkeeping, records
//! the frame once the warm-up window has passed, and says when the run is
//! complete.

use vstd::prelude::*;

use crate::fx;
use crate::fx::{sat64, SCALE};
use crate::pool::{collide_seq, integrate_seq, spawn_count, spawn_seq, Pool, PtV};
use crate::rng::{rng_skip, Rng, SEED};
use crate::stats::Trace;
use crate::wind::{wind_axis, Wind};

verus! {

/// The run's compile-time-style parameters, made explicit values.
#[derive(Clone, Copy)]
pub struct Config {
    /// Run duration, whole seconds.
    pub running_time_s: u32,
    /// Spawn rate, particles per second.
    pub points_per_sec: u32,
    /// A particle's maximum lifetime, whole milliseconds; also sizes the
    /// warm-up window and the compaction period.
    pub max_life_ms: u32,
    /// How much spawn debt triggers a spawn batch, fixed-point seconds.
    pub spawn_interval: i64,
}

impl Config {
    /// Parameters that size a run consistently: positive rates and
    /// periods, and derived capacities that fit the machine.
    pub open spec fn wf(self) -> bool {
        &&& self.running_time_s >= 1
        &&& self.points_per_sec >= 1
        &&& self.max_life_ms >= 1
        &&& self.spawn_interval > 0
        &&& self.running_time_s * self.points_per_sec <= usize::MAX
        &&& self.running_time_s * 1000 <= usize::MAX
    }

    /// The pool capacity a run can ever need: every particle the spawn
    /// rate can produce over the whole run.
    pub open spec fn max_pts(self) -> int {
        self.running_time_s * self.points_per_sec
    }

    /// The trace capacity: a generous thousand frames per second of run.
    pub open spec fn trace_cap(self) -> int {
        self.running_time_s * 1000
    }

    /// The warm-up window, fixed-point seconds: one maximum lifetime.
    pub open spec fn warmup(self) -> int {
        self.max_life_ms * 1000
    }

    /// The run duration, fixed-point seconds.
    pub open spec fn running_time(self) -> int {
        self.running_time_s * (SCALE as int)
    }

    /// The benchmark's fixed parameters: a 25-second run at 2000
    /// particles per second, 5-second lifetimes, a spawn batch every
    /// hundredth of a second.
    pub fn bench() -> (c: Config)
        ensures
            c.wf(),
            c.running_time_s == 25,
            c.points_per_sec == 2000,
            c.max_life_ms == 5000,
            c.spawn_interval == 10_000,
    {
        Config { running_time_s: 25, points_per_sec: 2000, max_life_ms: 5000, spawn_interval: 10_000 }
    }
}

/// The two fatal sizing-invariant violations: a spawn batch or a frame
/// record that would pass its preallocated capacity. Neither occurs in a
/// consistent configuration; a caller must abort on them.
#[derive(Clone, Copy, PartialEq, Eq, Structural, Debug)]
pub enum SimError {
    /// A spawn batch would pass the pool's capacity.
    PoolFull,
    /// A frame record would pass the trace's capacity.
    TraceFull,
}

/// Whether the run goes on after a frame.
#[derive(Clone, Copy, PartialEq, Eq, Structural, Debug)]
pub enum StepStatus {
    /// The run window has not elapsed.
    Running,
    /// The run window elapsed this frame: reduce the trace and stop.
    Complete,
}

/// The whole run state: generator, pool, wind, timers and trace.
pub struct Simulation {
    /// The run's parameters.
    pub cfg: Config,
    /// The deterministic generator; the single source of randomness.
    pub rng: Rng,
    /// The particle pool.
    pub pool: Pool,
    /// The wind field.
    pub wind: Wind,
    /// The frame trace.
    pub trace: Trace,
    /// Duration of the previous frame, fixed-point seconds.
    pub frame_dur: i64,
    /// Spawn debt accumulated since the last spawn batch.
    pub spwn_tmr: i64,
    /// Time since the last compaction.
    pub cleanup_tmr: i64,
    /// Time since the run began.
    pub run_tmr: i64,
}

impl Simulation {
    /// Run-state well-formedness: a consistent configuration, a
    /// well-formed pool and trace sized from it, and non-negative timers.
    pub open spec fn wf(self) -> bool {
        &&& self.cfg.wf()
        &&& self.pool.wf()
        &&& self.pool.max_pts as int == self.cfg.max_pts()
        &&& self.trace.wf()
        &&& self.trace.cap as int == self.cfg.trace_cap()
        &&& self.frame_dur >= 0
        &&& self.spwn_tmr >= 0
        &&& self.cleanup_tmr >= 0
        &&& self.run_tmr >= 0
    }
}

/// Begins a run: the generator in its fixed starting state, an empty pool
/// sized for the whole run, a calm wind, an empty trace and zeroed timers.
pub fn start(cfg: Config) -> (sim: Simulation)
    requires
        cfg.wf(),
    ensures
        sim.wf(),
        sim.cfg == cfg,
        sim.rng.seed == SEED,
        sim.pool.min_pt == 0,
        sim.pool.model() == Seq::<PtV>::empty(),
        sim.wind.x == 0 && sim.wind.y == 0 && sim.wind.z == 0,
        sim.trace.frames@.len() == 0,
        sim.frame_dur == 0 && sim.spwn_tmr == 0 && sim.cleanup_tmr == 0 && sim.run_tmr == 0,
{
    let max_pts = (cfg.running_time_s as usize) * (cfg.points_per_sec as usize);
    let trace_cap = (cfg.running_time_s as usize) * 1000;
    Simulation {
        cfg,
        rng: Rng::new(),
        pool: Pool::new(max_pts),
        wind: Wind::new(),
        trace: Trace::new(trace_cap),
        frame_dur: 0,
        spwn_tmr: 0,
        cleanup_tmr: 0,
        run_tmr: 0,
    }
}

impl Simulation {
    /// The pool after the frame's integration pass: every live slot of the
    /// window stepped under the prior wind and the previous frame's duration.
    pub open spec fn after_integrate(pre: Simulation) -> Seq<PtV> {
        integrate_seq(
            pre.pool.model(),
            pre.pool.min_pt as int,
            pre.wind.x as int,
            pre.wind.y as int,
            pre.wind.z as int,
            pre.frame_dur as int,
        )
    }

    /// Whether the frame owes a spawn batch.
    pub open spec fn spawns(pre: Simulation) -> bool {
        pre.spwn_tmr >= pre.cfg.spawn_interval
    }

    /// The size of one spawn batch under the configuration.
    pub open spec fn batch(pre: Simulation) -> int {
        spawn_count(pre.cfg.spawn_interval as int, pre.cfg.points_per_sec as int)
    }

    /// Whether the frame's spawn batch would pass the pool's capacity.
    pub open spec fn overflows(pre: Simulation) -> bool {
        Self::spawns(pre) && Self::after_integrate(pre).len() + Self::batch(pre)
            > pre.cfg.max_pts()
    }

    /// The generator state after the frame's wind walk.
    pub open spec fn seed_after_wind(pre: Simulation) -> u32 {
        rng_skip(pre.rng.seed, 3)
    }

    /// The pool after the frame's conditional spawn batch, drawn from the
    /// generator as the wind walk left it.
    pub open spec fn after_spawn(pre: Simulation) -> Seq<PtV> {
        if Self::spawns(pre) && !Self::overflows(pre) {
            Self::after_integrate(pre) + spawn_seq(
                Self::seed_after_wind(pre),
                Self::batch(pre) as nat,
                pre.cfg.max_life_ms,
            )
        } else {
            Self::after_integrate(pre)
        }
    }

    /// The generator state after the frame's conditional spawn batch.
    pub open spec fn seed_after_spawn(pre: Simulation) -> u32 {
        if Self::spawns(pre) && !Self::overflows(pre) {
            rng_skip(Self::seed_after_wind(pre), (7 * Self::batch(pre)) as nat)
        } else {
            Self::seed_after_wind(pre)
        }
    }

    /// Whether the frame owes a compaction.
    pub open spec fn compacts(pre: Simulation) -> bool {
        pre.cleanup_tmr as int >= pre.cfg.warmup()
    }

    /// The exact effect of the simulation half of one frame on the run
    /// state: the integration pass under the previous frame's duration and
    /// the prior wind, the wind walk, the conditional spawn batch, the
    /// conditional compaction, and the boundary-resolution pass — or, on
    /// the fatal capacity violation, everything up to the refused batch.
    pub open spec fn sim_frame_post(pre: Simulation, post: Simulation, r: Result<(), SimError>) -> bool {
        &&& post.wind.x as int == wind_axis(pre.wind.x as int, rng_skip(pre.rng.seed, 1), pre.frame_dur as int)
        &&& post.wind.y as int == wind_axis(pre.wind.y as int, rng_skip(pre.rng.seed, 2), pre.frame_dur as int)
        &&& post.wind.z as int == wind_axis(pre.wind.z as int, rng_skip(pre.rng.seed, 3), pre.frame_dur as int)
        &&& (r is Err <==> Self::overflows(pre))
        &&& (r is Err ==> r == Result::<(), SimError>::Err(SimError::PoolFull))
        &&& (Self::overflows(pre) ==> {
            &&& post.pool.model() == Self::after_integrate(pre)
            &&& post.pool.min_pt == pre.pool.min_pt
            &&& post.rng.seed == Self::seed_after_wind(pre)
            &&& post.spwn_tmr == pre.spwn_tmr
            &&& post.cleanup_tmr == pre.cleanup_tmr
        })
        &&& (!Self::overflows(pre) ==> {
            &&& post.rng.seed == Self::seed_after_spawn(pre)
            &&& post.spwn_tmr as int == (if Self::spawns(pre) {
                pre.spwn_tmr - pre.cfg.spawn_interval
            } else {
                pre.spwn_tmr as int
            })
            &&& post.cleanup_tmr as int == (if Self::compacts(pre) {
                0
            } else {
                pre.cleanup_tmr as int
            })
            &&& post.pool.model() == collide_seq(Self::after_spawn(pre), post.pool.min_pt as int)
            &&& post.pool.min_pt >= pre.pool.min_pt
            &&& (!Self::compacts(pre) ==> post.pool.min_pt == pre.pool.min_pt)
            &&& (Self::compacts(pre) ==> {
                &&& (forall|j: int|
                    pre.pool.min_pt <= j < post.pool.min_pt ==> !Self::after_spawn(pre)[j].live)
                &&& ((exists|j: int|
                    pre.pool.min_pt <= j < Self::after_spawn(pre).len() && Self::after_spawn(
                        pre,
                    )[j].live) ==> post.pool.min_pt < Self::after_spawn(pre).len()
                    && Self::after_spawn(pre)[post.pool.min_pt as int].live)
                &&& ((forall|j: int|
                    pre.pool.min_pt <= j < Self::after_spawn(pre).len() ==> !Self::after_spawn(
                        pre,
                    )[j].live) ==> post.pool.min_pt == pre.pool.min_pt)
            })
        })
    }

    /// The simulation half of one frame, in the fixed order: integrate
    /// under the previous frame's duration, walk the wind, spawn a batch
    /// when the spawn debt is due, compact when the compaction period is
    /// due, then resolve boundary collisions. `Err(PoolFull)` reports the
    /// fatal capacity violation, with the spawn batch and everything after
    /// it not applied; [`Simulation::sim_frame_post`] states the exact
    /// effect either way.
    #[verifier::rlimit(100)]
    #[verifier::spinoff_prover]
    pub fn sim_frame(&mut self) -> (r: Result<(), SimError>)
        requires
            old(self).wf(),
        ensures
            final(self).wf(),
            final(self).cfg == old(self).cfg,
            final(self).trace == old(self).trace,
            final(self).frame_dur == old(self).frame_dur,
            final(self).run_tmr == old(self).run_tmr,
            final(self).cleanup_tmr <= old(self).cleanup_tmr,
            Self::sim_frame_post(*old(self), *final(self), r),
    {
        let dt = self.frame_dur;
        let wx = self.wind.x;
        let wy = self.wind.y;
        let wz = self.wind.z;
        self.pool.mov_pts(wx, wy, wz, dt);
        self.wind.do_wind(&mut self.rng, dt);
        if self.spwn_tmr >= self.cfg.spawn_interval {
            let ok = self.pool.spwn_pts(
                &mut self.rng,
                self.cfg.spawn_interval,
                self.cfg.points_per_sec,
                self.cfg.max_life_ms,
            );
            if !ok {
                return Err(SimError::PoolFull);
            }
            self.spwn_tmr = self.spwn_tmr - self.cfg.spawn_interval;
        }
        let warm: i64 = (self.cfg.max_life_ms as i64) * 1000;
        if self.cleanup_tmr >= warm {
            self.pool.cleanup_pt_pool();
            self.cleanup_tmr = 0;
        }
        self.pool.check_colls();
        Ok(())
    }

    /// The bookkeeping half of one frame: the measured wall-clock duration
    /// becomes the next frame's integration step and feeds the three
    /// periodic timers; once the run is past its warm-up window the frame
    /// is recorded; the run is complete once the run timer reaches the
    /// configured duration. `Err(TraceFull)` reports the fatal capacity
    /// violation, with nothing recorded.
    pub fn end_frame(&mut self, frame_dur: i64, gpu_dur: i64) -> (r: Result<StepStatus, SimError>)
        requires
            old(self).wf(),
            frame_dur >= 0,
            gpu_dur >= 0,
        ensures
            final(self).wf(),
            final(self).cfg == old(self).cfg,
            final(self).rng == old(self).rng,
            final(self).pool == old(self).pool,
            final(self).wind == old(self).wind,
            final(self).frame_dur == frame_dur,
            final(self).spwn_tmr as int == sat64(old(self).spwn_tmr + frame_dur),
            final(self).cleanup_tmr as int == sat64(old(self).cleanup_tmr + frame_dur),
            final(self).run_tmr as int == sat64(old(self).run_tmr + frame_dur),
            ({
                let cfg = old(self).cfg;
                let run1 = sat64(old(self).run_tmr + frame_dur);
                let recording = run1 > cfg.warmup();
                let full = recording && old(self).trace.frames@.len() >= cfg.trace_cap();
                &&& (r is Err <==> full)
                &&& (r is Err ==> r == Result::<StepStatus, SimError>::Err(SimError::TraceFull))
                &&& (recording && !full ==> final(self).trace.frames@ == old(
                    self,
                ).trace.frames@.push(frame_dur) && final(self).trace.gpu_times@ == old(
                    self,
                ).trace.gpu_times@.push(gpu_dur))
                &&& (!recording ==> final(self).trace == old(self).trace)
                &&& (full ==> final(self).trace == old(self).trace)
                &&& (!full ==> (r == Result::<StepStatus, SimError>::Ok(StepStatus::Complete)
                    <==> run1 >= cfg.running_time()))
                &&& (!full ==> (r == Result::<StepStatus, SimError>::Ok(StepStatus::Running) <==> run1
                    < cfg.running_time()))
            }),
    {
        self.frame_dur = frame_dur;
        self.spwn_tmr = fx::fp_add(self.spwn_tmr, frame_dur);
        self.cleanup_tmr = fx::fp_add(self.cleanup_tmr, frame_dur);
        self.run_tmr = fx::fp_add(self.run_tmr, frame_dur);
        let warm: i64 = (self.cfg.max_life_ms as i64) * 1000;
        if self.run_tmr > warm {
            let ok = self.trace.record(frame_dur, gpu_dur);
            if !ok {
                return Err(SimError::TraceFull);
            }
        }
        let run_span: i64 = (self.cfg.running_time_s as i64) * SCALE;
        if self.run_tmr >= run_span {
            Ok(StepStatus::Complete)
        } else {
            Ok(StepStatus::Running)
        }
    }
}

} // verus!
