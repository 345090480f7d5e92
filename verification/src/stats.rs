//! The frame trace and the statistics reducer.
//!
//! Per-frame wall-clock and GPU-submission durations are appended to two
//! parallel bounded buffers; when the run completes they are reduced to the
//! mean frame time, the mean frame rate, the mean CPU-only time, and the
//! standard deviation of the instantaneous frame rates. Each reduction pass
//! walks the trace with its own cursor.

use vstd::prelude::*;

use crate::fx;
use crate::fx::{fdiv, fmul, sat64, tdiv, SCALE};

verus! {

/// Saturating sum of a trace, folded left to right.
pub open spec fn sum_sat(s: Seq<i64>) -> int
    decreases s.len(),
{
    if s.len() == 0 {
        0
    } else {
        sat64(sum_sat(s.drop_last()) + s.last())
    }
}

/// The mean of a non-empty trace: its saturating sum over its length,
/// truncated toward zero.
pub open spec fn mean_of(s: Seq<i64>) -> int
    recommends
        s.len() > 0,
{
    tdiv(sum_sat(s), s.len() as int)
}

/// The instantaneous rate of one duration: its fixed-point reciprocal.
/// A duration that is not positive has no finite rate; the largest
/// representable value stands in for it.
pub open spec fn rate_of(d: int) -> int {
    if d > 0 {
        fdiv(SCALE as int, d)
    } else {
        i64::MAX as int
    }
}

/// The squared deviation of one duration's rate from the mean rate.
pub open spec fn sq_dev(d: i64, mean_rate: int) -> int {
    let diff = sat64(rate_of(d as int) - mean_rate);
    fmul(diff, diff)
}

/// Saturating sum of squared rate deviations over a trace.
pub open spec fn sum_sq_dev(s: Seq<i64>, mean_rate: int) -> int
    decreases s.len(),
{
    if s.len() == 0 {
        0
    } else {
        sat64(sum_sq_dev(s.drop_last(), mean_rate) + sq_dev(s.last(), mean_rate))
    }
}

/// The variance of the instantaneous rates of a non-empty trace about
/// `mean_rate`.
pub open spec fn variance_of(s: Seq<i64>, mean_rate: int) -> int
    recommends
        s.len() > 0,
{
    tdiv(sum_sq_dev(s, mean_rate), s.len() as int)
}

/// A sum of squared deviations is never negative.
pub proof fn lemma_sum_sq_dev_nonneg(s: Seq<i64>, mean_rate: int)
    ensures
        sum_sq_dev(s, mean_rate) >= 0,
    decreases s.len(),
{
    if s.len() > 0 {
        lemma_sum_sq_dev_nonneg(s.drop_last(), mean_rate);
        let diff = sat64(rate_of(s.last() as int) - mean_rate);
        assert(diff * diff >= 0) by (nonlinear_arith);
    }
}

/// The reduced statistics of one run.
pub struct Stats {
    /// Mean frame duration, fixed-point seconds.
    pub frame_time_mean: i64,
    /// Mean frame rate: the reciprocal of the mean frame duration.
    pub frame_rate_mean: i64,
    /// Mean GPU-submission duration, fixed-point seconds.
    pub gpu_time_mean: i64,
    /// Mean CPU-only time: mean frame duration less mean GPU duration.
    pub cpu_time_mean: i64,
    /// Standard deviation of the instantaneous frame rates about the
    /// mean rate.
    pub rate_sd: i64,
}

/// Saturating sum of a trace buffer.
fn sum_sat_exec(v: &Vec<i64>) -> (s: i64)
    ensures
        s as int == sum_sat(v@),
{
    let mut s: i64 = 0;
    let mut i: usize = 0;
    proof {
        assert(v@.subrange(0, 0) =~= Seq::<i64>::empty());
    }
    while i < v.len()
        invariant
            i <= v@.len(),
            s as int == sum_sat(v@.subrange(0, i as int)),
        decreases v@.len() - i,
    {
        proof {
            assert(v@.subrange(0, i + 1 as int).drop_last() =~= v@.subrange(0, i as int));
            assert(v@.subrange(0, i + 1 as int).last() == v@[i as int]);
        }
        s = fx::fp_add(s, v[i]);
        i += 1;
    }
    proof {
        assert(v@.subrange(0, v@.len() as int) =~= v@);
    }
    s
}

/// The instantaneous rate of one duration.
pub fn rate_exec(d: i64) -> (r: i64)
    ensures
        r as int == rate_of(d as int),
{
    if d > 0 {
        fx::fp_div(SCALE, d)
    } else {
        i64::MAX
    }
}

/// The instantaneous rate of every duration of a trace, in order.
pub fn rates_exec(v: &Vec<i64>) -> (out: Vec<i64>)
    ensures
        out@.len() == v@.len(),
        forall|i: int| 0 <= i < v@.len() ==> out@[i] as int == rate_of(v@[i] as int),
{
    let mut out: Vec<i64> = Vec::new();
    let mut i: usize = 0;
    while i < v.len()
        invariant
            i <= v@.len(),
            out@.len() == i,
            forall|j: int| 0 <= j < i ==> out@[j] as int == rate_of(v@[j] as int),
        decreases v@.len() - i,
    {
        let r = rate_exec(v[i]);
        out.push(r);
        i += 1;
    }
    out
}

/// Saturating sum of squared rate deviations of a trace buffer.
fn sum_sq_dev_exec(v: &Vec<i64>, mean_rate: i64) -> (s: i64)
    ensures
        s as int == sum_sq_dev(v@, mean_rate as int),
{
    let mut s: i64 = 0;
    let mut i: usize = 0;
    proof {
        assert(v@.subrange(0, 0) =~= Seq::<i64>::empty());
    }
    while i < v.len()
        invariant
            i <= v@.len(),
            s as int == sum_sq_dev(v@.subrange(0, i as int), mean_rate as int),
        decreases v@.len() - i,
    {
        proof {
            assert(v@.subrange(0, i + 1 as int).drop_last() =~= v@.subrange(0, i as int));
            assert(v@.subrange(0, i + 1 as int).last() == v@[i as int]);
        }
        let diff = fx::fp_sub(rate_exec(v[i]), mean_rate);
        let sq = fx::fp_mul(diff, diff);
        s = fx::fp_add(s, sq);
        i += 1;
    }
    proof {
        assert(v@.subrange(0, v@.len() as int) =~= v@);
    }
    s
}

/// Floor of the square root: binary search over the root's range.
fn isqrt(x: u128) -> (r: u64)
    ensures
        (r as int) * (r as int) <= x as int,
        (x as int) < (r as int + 1) * (r as int + 1),
{
    let mut lo: u128 = 0;
    let mut hi: u128 = 0x1_0000_0000_0000_0000u128;
    proof {
        assert((hi as int) * (hi as int) > u128::MAX as int) by (nonlinear_arith)
            requires
                hi == 0x1_0000_0000_0000_0000u128,
        ;
    }
    while lo + 1 < hi
        invariant
            lo < hi <= 0x1_0000_0000_0000_0000u128,
            (lo as int) * (lo as int) <= x as int,
            (x as int) < (hi as int) * (hi as int),
        decreases hi - lo,
    {
        let mid = lo + (hi - lo) / 2;
        proof {
            assert(lo < mid < hi);
            assert((mid as int) * (mid as int) <= u128::MAX as int) by (nonlinear_arith)
                requires
                    0 <= mid < 0x1_0000_0000_0000_0000u128,
            ;
        }
        let sq = mid * mid;
        if sq <= x {
            lo = mid;
        } else {
            hi = mid;
        }
    }
    lo as u64
}

/// Reduces a pair of parallel traces — frame durations and GPU-submission
/// durations — into the run's statistics. An empty trace has no
/// statistics. Each mean is the saturating sum over the count; the mean
/// rate is the reciprocal of the mean frame time; the standard deviation
/// is the floor square root of the variance of the instantaneous rates
/// about the mean rate. Each pass walks the trace with its own cursor.
pub fn compute_stats(frames: &Vec<i64>, gpu_times: &Vec<i64>) -> (res: Option<Stats>)
    requires
        frames@.len() == gpu_times@.len(),
    ensures
        res is Some <==> frames@.len() > 0,
        res matches Some(st) ==> {
            &&& st.frame_time_mean as int == mean_of(frames@)
            &&& st.frame_rate_mean as int == rate_of(mean_of(frames@))
            &&& st.gpu_time_mean as int == mean_of(gpu_times@)
            &&& st.cpu_time_mean as int == sat64(mean_of(frames@) - mean_of(gpu_times@))
            &&& st.rate_sd >= 0
            &&& (st.rate_sd as int) * (st.rate_sd as int) <= variance_of(
                frames@,
                rate_of(mean_of(frames@)),
            ) * (SCALE as int)
            &&& variance_of(frames@, rate_of(mean_of(frames@))) * (SCALE as int) < (
            st.rate_sd as int + 1) * (st.rate_sd as int + 1)
        },
{
    let n = frames.len();
    if n == 0 {
        return None;
    }
    let count: u64 = n as u64;
    let sum_f = sum_sat_exec(frames);
    let mean_f = fx::fp_div_count(sum_f, count);
    let rate_mean = rate_exec(mean_f);
    let sum_g = sum_sat_exec(gpu_times);
    let mean_g = fx::fp_div_count(sum_g, count);
    let cpu = fx::fp_sub(mean_f, mean_g);
    let ssd = sum_sq_dev_exec(frames, rate_mean);
    let v = fx::fp_div_count(ssd, count);
    proof {
        lemma_sum_sq_dev_nonneg(frames@, rate_mean as int);
        assert(v >= 0);
    }
    let arg: u128 = (v as u128) * 1_000_000u128;
    let sd64 = isqrt(arg);
    proof {
        assert(sd64 < 0x80_0000_0000_0000u64) by (nonlinear_arith)
            requires
                (sd64 as int) * (sd64 as int) <= arg as int,
                arg as int <= (i64::MAX as int) * 1_000_000,
        ;
    }
    let sd = sd64 as i64;
    Some(
        Stats {
            frame_time_mean: mean_f,
            frame_rate_mean: rate_mean,
            gpu_time_mean: mean_g,
            cpu_time_mean: cpu,
            rate_sd: sd,
        },
    )
}

/// The bounded per-frame trace: two parallel buffers and one cursor.
pub struct Trace {
    /// Wall-clock duration of each recorded frame.
    pub frames: Vec<i64>,
    /// GPU-submission duration of each recorded frame.
    pub gpu_times: Vec<i64>,
    /// Capacity: recording past it is refused.
    pub cap: usize,
}

impl Trace {
    /// The buffers stay parallel and bounded.
    pub open spec fn wf(self) -> bool {
        &&& self.frames@.len() == self.gpu_times@.len()
        &&& self.frames@.len() <= self.cap
    }

    /// An empty trace sized for `cap` frames.
    pub fn new(cap: usize) -> (t: Trace)
        ensures
            t.wf(),
            t.cap == cap,
            t.frames@.len() == 0,
    {
        Trace { frames: Vec::new(), gpu_times: Vec::new(), cap }
    }

    /// The cursor: how many frames have been recorded.
    pub fn cur_frame(&self) -> (n: usize)
        ensures
            n == self.frames@.len(),
    {
        self.frames.len()
    }

    /// Appends one frame's durations. Returns `false`, changing nothing,
    /// exactly when the trace is full — the fatal sizing-invariant
    /// violation the caller must treat as such.
    pub fn record(&mut self, frame_dur: i64, gpu_dur: i64) -> (ok: bool)
        requires
            old(self).wf(),
        ensures
            final(self).wf(),
            final(self).cap == old(self).cap,
            ok <==> old(self).frames@.len() < old(self).cap,
            ok ==> final(self).frames@ == old(self).frames@.push(frame_dur)
                && final(self).gpu_times@ == old(self).gpu_times@.push(gpu_dur),
            !ok ==> *final(self) == *old(self),
    {
        if self.frames.len() < self.cap {
            self.frames.push(frame_dur);
            self.gpu_times.push(gpu_dur);
            true
        } else {
            false
        }
    }
}

} // verus!
