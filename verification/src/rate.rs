//! Drift-compensating rate controller.
//!
//! Compensates for clock drift between the remote source and the local
//! audio device by nudging the resampling target rate in small bounded
//! steps, based on how full the playback ring buffer is.  The controller
//! only speeds up under backlog pressure and is biased to settle back to
//! the nominal rate once the backlog drains; it never goes below nominal
//! (underruns are handled by the buffer's silence-fill policy instead).

use vstd::prelude::*;

verus! {

/// How far above the nominal rate the controller may reach, in Hz.
pub const DRIFT_MARGIN_HZ: u32 = 604;

pub struct RateControl {
    /// Rate implied by the source format, before drift compensation.
    pub nominal: u32,
    /// Upper bound for the target rate: nominal plus the drift margin.
    pub max: u32,
    /// Adjustment applied per processed frame: one channel-count of Hz.
    pub step: u32,
    /// Occupancy above which the controller speeds up.
    pub high_watermark: usize,
    /// Occupancy at which the buffer is comfortably drained; kept as part
    /// of the configuration (the settle-back policy below subsumes it).
    pub low_watermark: usize,
    /// Current resample target rate.
    pub rate: u32,
}

impl RateControl {
    pub open spec fn wf(&self) -> bool {
        &&& 1 <= self.step
        &&& self.nominal <= self.max
        &&& self.nominal <= self.rate <= self.max
        &&& self.low_watermark <= self.high_watermark
    }

    pub open spec fn spec_nominal(&self) -> int {
        self.nominal as int
    }

    pub open spec fn spec_max(&self) -> int {
        self.max as int
    }

    pub open spec fn spec_step(&self) -> int {
        self.step as int
    }

    pub open spec fn spec_high(&self) -> int {
        self.high_watermark as int
    }

    pub open spec fn spec_low(&self) -> int {
        self.low_watermark as int
    }

    pub open spec fn spec_rate(&self) -> int {
        self.rate as int
    }

    /// Everything but the current rate: the fixed session configuration.
    pub open spec fn same_config(&self, other: &RateControl) -> bool {
        &&& self.nominal == other.nominal
        &&& self.max == other.max
        &&& self.step == other.step
        &&& self.high_watermark == other.high_watermark
        &&& self.low_watermark == other.low_watermark
    }

    pub fn new(nominal: u32, margin: u32, step: u32, high_watermark: usize, low_watermark: usize) -> (r:
        RateControl)
        requires
            1 <= step,
            nominal + margin <= u32::MAX,
            low_watermark <= high_watermark,
        ensures
            r.wf(),
            r.spec_nominal() == nominal,
            r.spec_max() == nominal + margin,
            r.spec_step() == step,
            r.spec_high() == high_watermark,
            r.spec_low() == low_watermark,
            r.spec_rate() == nominal,
    {
        RateControl {
            nominal,
            max: nominal + margin,
            step,
            high_watermark,
            low_watermark,
            rate: nominal,
        }
    }

    pub fn nominal(&self) -> (r: u32)
        ensures
            r == self.spec_nominal(),
    {
        self.nominal
    }

    pub fn rate(&self) -> (r: u32)
        ensures
            r == self.spec_rate(),
    {
        self.rate
    }

    /// The target rate after one control evaluation at `occupancy`: one
    /// bounded step up under backlog pressure, one bounded step back toward
    /// nominal otherwise, saturating at the band `[nominal, max]`.
    pub open spec fn next_rate(&self, occupancy: int) -> int {
        if occupancy > self.spec_high() {
            if self.spec_rate() + self.spec_step() <= self.spec_max() {
                self.spec_rate() + self.spec_step()
            } else {
                self.spec_max()
            }
        } else {
            if self.spec_rate() - self.spec_step() >= self.spec_nominal() {
                self.spec_rate() - self.spec_step()
            } else {
                self.spec_nominal()
            }
        }
    }

    /// One control evaluation, run once per normalized frame with the ring
    /// buffer occupancy read just before the push.
    pub fn adjust(&mut self, occupancy: usize)
        requires
            old(self).wf(),
        ensures
            final(self).wf(),
            final(self).same_config(old(self)),
            final(self).spec_rate() == old(self).next_rate(occupancy as int),
            occupancy > old(self).spec_high() && old(self).spec_rate() < old(self).spec_max()
                ==> final(self).spec_rate() > old(self).spec_rate(),
            occupancy <= old(self).spec_high() && old(self).spec_rate() > old(self).spec_nominal()
                ==> final(self).spec_rate() < old(self).spec_rate(),
    {
        if occupancy > self.high_watermark {
            if self.rate < self.max {
                let room = self.max - self.rate;
                if self.step < room {
                    self.rate = self.rate + self.step;
                } else {
                    self.rate = self.max;
                }
            }
        } else {
            if self.rate > self.nominal {
                let room = self.rate - self.nominal;
                if self.step < room {
                    self.rate = self.rate - self.step;
                } else {
                    self.rate = self.nominal;
                }
            }
        }
    }

    /// The target rate after `n` consecutive control evaluations, all at
    /// the same occupancy.
    pub open spec fn rate_after(&self, occupancy: int, n: nat) -> int
        decreases n,
    {
        if n == 0 {
            self.spec_rate()
        } else {
            let prev = self.rate_after(occupancy, (n - 1) as nat);
            if occupancy > self.spec_high() {
                if prev + self.spec_step() <= self.spec_max() {
                    prev + self.spec_step()
                } else {
                    self.spec_max()
                }
            } else {
                if prev - self.spec_step() >= self.spec_nominal() {
                    prev - self.spec_step()
                } else {
                    self.spec_nominal()
                }
            }
        }
    }
}

/// The iterated rate never leaves the band `[nominal, nominal + margin]`.
pub proof fn lemma_rate_after_in_band(rc: RateControl, occupancy: int, n: nat)
    requires
        rc.wf(),
    ensures
        rc.spec_nominal() <= rc.rate_after(occupancy, n) <= rc.spec_max(),
    decreases n,
{
    if n > 0 {
        lemma_rate_after_in_band(rc, occupancy, (n - 1) as nat);
    }
}

/// One step of the iterated-rate account is exactly one control
/// evaluation: the rate after `n + 1` evaluations is `next_rate` — the
/// effect [`RateControl::adjust`] is specified by — applied to the rate
/// after `n`.
pub proof fn lemma_rate_after_unfold(rc: RateControl, occupancy: int, n: nat)
    requires
        rc.wf(),
    ensures
        rc.rate_after(occupancy, n + 1) == (RateControl {
            rate: rc.rate_after(occupancy, n) as u32,
            ..rc
        }).next_rate(occupancy),
{
    lemma_rate_after_in_band(rc, occupancy, n);
    assert(rc.rate_after(occupancy, (n + 1) as nat) == rc.rate_after(occupancy, n + 1));
}

/// Backlog law: with occupancy held continuously above the high watermark,
/// the rate after `n` control evaluations is exactly the initial rate plus
/// `n` steps, saturated at `nominal + margin` — so it strictly increases
/// each frame until it saturates, and never leaves the band.
pub proof fn lemma_rate_climbs(rc: RateControl, occupancy: int, n: nat)
    requires
        rc.wf(),
        occupancy > rc.spec_high(),
    ensures
        rc.rate_after(occupancy, n) == if rc.spec_rate() + n * rc.spec_step() <= rc.spec_max() {
            rc.spec_rate() + n * rc.spec_step()
        } else {
            rc.spec_max()
        },
    decreases n,
{
    if n > 0 {
        let m = (n - 1) as nat;
        let s = rc.spec_step();
        lemma_rate_climbs(rc, occupancy, m);
        assert(m * s + s == n * s) by (nonlinear_arith)
            requires
                m + 1 == n,
        ;
        assert(m * s >= 0) by (nonlinear_arith)
            requires
                s >= 1,
        ;
    } else {
        assert(n * rc.spec_step() == 0) by (nonlinear_arith)
            requires
                n == 0,
        ;
    }
}

/// Settle-back law: with occupancy held at or below the high watermark
/// (in particular, at or below the low watermark), the rate after `n`
/// control evaluations is exactly the initial rate minus `n` steps,
/// saturated at nominal — so while above nominal it strictly decreases
/// each frame until it reaches nominal, and never goes below it.
pub proof fn lemma_rate_settles(rc: RateControl, occupancy: int, n: nat)
    requires
        rc.wf(),
        occupancy <= rc.spec_high(),
    ensures
        rc.rate_after(occupancy, n) == if rc.spec_rate() - n * rc.spec_step() >= rc.spec_nominal() {
            rc.spec_rate() - n * rc.spec_step()
        } else {
            rc.spec_nominal()
        },
    decreases n,
{
    if n > 0 {
        let m = (n - 1) as nat;
        let s = rc.spec_step();
        lemma_rate_settles(rc, occupancy, m);
        assert(m * s + s == n * s) by (nonlinear_arith)
            requires
                m + 1 == n,
        ;
        assert(m * s >= 0) by (nonlinear_arith)
            requires
                s >= 1,
        ;
    } else {
        assert(n * rc.spec_step() == 0) by (nonlinear_arith)
            requires
                n == 0,
        ;
    }
}

} // verus!
