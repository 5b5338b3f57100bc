//! The timing state of a simulation: step size, sub-step count, burst window
//! and host period, kept consistent by rerunning the step-size search.
use vstd::prelude::*;

use crate::negotiator::{request, select_step, selected_entry, wide_mul};
use crate::table::{standard_rows, table_ordered, StepEntry, StepSizeTable, POINTS_SCALE};

verus! {

/// The most integrator steps taken in one host tick.
pub const MAX_SUB_STEPS: u64 = 10_000;

/// The step size before any configuration: 1.5 ms.
pub const DEFAULT_DT_NS: u64 = 1_500_000;

/// The burst window before any configuration: 1 s.
pub const DEFAULT_BURST_NS: i64 = 1_000_000_000;

/// The host period before any configuration: 1 ms.
pub const DEFAULT_PERIOD_NS: i64 = 1_000_000;

/// The timing part of a configuration document. A field left `None` keeps
/// its present value.
#[derive(Clone, Copy, Debug, PartialEq, Eq, Structural)]
pub struct TimingConfig {
    /// The burst window, in nanoseconds.
    pub burst_ns: Option<i64>,
    /// The advisory host period, in nanoseconds.
    pub period_ns: Option<i64>,
    /// A direct step size, in nanoseconds; negative values count as zero.
    pub time_increment_ns: Option<i64>,
}

/// What a [`Timing`] holds.
pub struct TimingView {
    pub table: Seq<StepEntry>,
    pub dt_ns: u64,
    pub burst_ns: i64,
    pub period_ns: i64,
    pub sub_steps: u64,
}

/// `n / d` rounded to the nearest integer, halves upward.
pub open spec fn rounded_quotient(n: int, d: int) -> int {
    n / d + if 2 * (n % d) >= d {
        1int
    } else {
        0int
    }
}

/// A sub-step count brought into `[1, MAX_SUB_STEPS]`.
pub open spec fn clamp_sub_steps(n: int) -> int {
    if n < 1 {
        1
    } else if n > MAX_SUB_STEPS {
        MAX_SUB_STEPS as int
    } else {
        n
    }
}

/// The sub-step count that tiles the burst window with a selected row: its
/// points over the burst request, rounded.
pub open spec fn burst_sub_steps(e: StepEntry, burst_ns: int, period_ns: int) -> int {
    clamp_sub_steps(rounded_quotient(e.points * period_ns, request(burst_ns, 1)))
}

/// The timing after the step-size search has run on `v`.
///
/// With no valid host period one sub-step is taken. With a positive burst
/// window the selected row gives the step size and the sub-step count; when
/// no row is selected the step size stays and one sub-step is taken. With no
/// burst window the step size stays and the sub-step count is the host
/// period over the step, rounded (the cap when the step is zero).
pub open spec fn negotiated(v: TimingView) -> TimingView {
    if v.period_ns <= 0 {
        TimingView { sub_steps: 1, ..v }
    } else if v.burst_ns > 0 {
        match selected_entry(v.table, v.burst_ns as int, v.period_ns as int) {
            Some(i) => TimingView {
                dt_ns: v.table[i].step_ns,
                sub_steps: burst_sub_steps(v.table[i], v.burst_ns as int, v.period_ns as int) as u64,
                ..v
            },
            None => TimingView { sub_steps: 1, ..v },
        }
    } else if v.dt_ns == 0 {
        TimingView { sub_steps: MAX_SUB_STEPS, ..v }
    } else {
        TimingView {
            sub_steps: clamp_sub_steps(rounded_quotient(v.period_ns as int, v.dt_ns as int)) as u64,
            ..v
        }
    }
}

/// The fields of `v` that `cfg` sets, before the search reruns.
pub open spec fn configured(v: TimingView, cfg: TimingConfig) -> TimingView {
    TimingView {
        dt_ns: match cfg.time_increment_ns {
            Some(d) => if d < 0 {
                0
            } else {
                d as u64
            },
            None => v.dt_ns,
        },
        burst_ns: match cfg.burst_ns {
            Some(b) => b,
            None => v.burst_ns,
        },
        period_ns: match cfg.period_ns {
            Some(p) => p,
            None => v.period_ns,
        },
        ..v
    }
}

/// The timing after a configuration is applied.
pub open spec fn reconfigured(v: TimingView, cfg: TimingConfig) -> TimingView {
    negotiated(configured(v, cfg))
}

/// Applying one configuration twice in succession gives the timing that
/// applying it once gives.
pub proof fn lemma_reconfigure_idempotent(v: TimingView, cfg: TimingConfig)
    requires
        table_ordered(v.table),
    ensures
        reconfigured(reconfigured(v, cfg), cfg) == reconfigured(v, cfg),
{
}

/// The sub-step count for `n / d`, rounded and clamped.
fn clamped_rounded_quotient(n: u128, d: u128) -> (r: u64)
    requires
        d > 0,
    ensures
        r == clamp_sub_steps(rounded_quotient(n as int, d as int)),
{
    let q = n / d;
    let rem = n % d;
    if q >= MAX_SUB_STEPS as u128 {
        return MAX_SUB_STEPS;
    }
    let rounded = if rem >= d - rem {
        q + 1
    } else {
        q
    };
    if rounded < 1 {
        1
    } else if rounded > MAX_SUB_STEPS as u128 {
        MAX_SUB_STEPS
    } else {
        rounded as u64
    }
}

/// The timing state of one simulated neuron.
#[derive(Debug)]
pub struct Timing {
    table: StepSizeTable,
    dt_ns: u64,
    burst_ns: i64,
    period_ns: i64,
    sub_steps: u64,
}

impl View for Timing {
    type V = TimingView;

    closed spec fn view(&self) -> TimingView {
        TimingView {
            table: self.table@,
            dt_ns: self.dt_ns,
            burst_ns: self.burst_ns,
            period_ns: self.period_ns,
            sub_steps: self.sub_steps,
        }
    }
}

impl Timing {
    /// The table is ordered and the sub-step count lies in
    /// `[1, MAX_SUB_STEPS]`.
    pub open spec fn wf(&self) -> bool {
        &&& table_ordered(self@.table)
        &&& 1 <= self@.sub_steps <= MAX_SUB_STEPS
    }

    /// The timing of a new instance: the measured table, a 1.5 ms step, a
    /// 1 s burst window, a 1 ms period and one sub-step per tick. The search
    /// first runs when a configuration arrives.
    pub fn new() -> (r: Timing)
        ensures
            r.wf(),
            r@.table == standard_rows(),
            r@.table.len() == 144,
            r@.dt_ns == DEFAULT_DT_NS,
            r@.burst_ns == DEFAULT_BURST_NS,
            r@.period_ns == DEFAULT_PERIOD_NS,
            r@.sub_steps == 1,
    {
        Timing {
            table: StepSizeTable::standard(),
            dt_ns: DEFAULT_DT_NS,
            burst_ns: DEFAULT_BURST_NS,
            period_ns: DEFAULT_PERIOD_NS,
            sub_steps: 1,
        }
    }

    /// A timing over a table of one's own, with the default step, burst
    /// window and period; the search runs at once.
    pub fn with_table(table: StepSizeTable) -> (r: Timing)
        requires
            table.wf(),
        ensures
            r.wf(),
            r@ == negotiated(
                TimingView {
                    table: table@,
                    dt_ns: DEFAULT_DT_NS,
                    burst_ns: DEFAULT_BURST_NS,
                    period_ns: DEFAULT_PERIOD_NS,
                    sub_steps: 1,
                },
            ),
    {
        let mut r = Timing {
            table,
            dt_ns: DEFAULT_DT_NS,
            burst_ns: DEFAULT_BURST_NS,
            period_ns: DEFAULT_PERIOD_NS,
            sub_steps: 1,
        };
        r.update_burst_settings();
        r
    }

    /// Reruns the step-size search on the present burst window and period.
    pub fn update_burst_settings(&mut self)
        requires
            old(self).wf(),
        ensures
            final(self).wf(),
            final(self)@ == negotiated(old(self)@),
            1 <= final(self)@.sub_steps <= MAX_SUB_STEPS,
    {
        if self.period_ns <= 0 {
            self.sub_steps = 1;
        } else if self.burst_ns > 0 {
            match select_step(&self.table, self.burst_ns, self.period_ns) {
                Some(i) => {
                    let e = self.table.entry(i);
                    let num = wide_mul(e.points, self.period_ns as u64);
                    let den = wide_mul(POINTS_SCALE, self.burst_ns as u64);
                    proof {
                        assert(den == request(self.burst_ns as int, 1)) by (nonlinear_arith)
                            requires
                                den == POINTS_SCALE * self.burst_ns,
                        ;
                    }
                    self.dt_ns = e.step_ns;
                    self.sub_steps = clamped_rounded_quotient(num, den);
                },
                None => {
                    self.sub_steps = 1;
                },
            }
        } else if self.dt_ns == 0 {
            self.sub_steps = MAX_SUB_STEPS;
        } else {
            self.sub_steps = clamped_rounded_quotient(self.period_ns as u128, self.dt_ns as u128);
        }
    }

    /// Applies the timing part of a configuration and reruns the search.
    pub fn apply_config(&mut self, cfg: &TimingConfig)
        requires
            old(self).wf(),
        ensures
            final(self).wf(),
            final(self)@ == reconfigured(old(self)@, *cfg),
    {
        if let Some(d) = cfg.time_increment_ns {
            self.dt_ns = if d < 0 {
                0
            } else {
                d as u64
            };
        }
        if let Some(b) = cfg.burst_ns {
            self.burst_ns = b;
        }
        if let Some(p) = cfg.period_ns {
            self.period_ns = p;
        }
        self.update_burst_settings();
    }

    /// Takes the period the host reports for this tick. The host's period is
    /// authoritative: when it differs from the one in use it replaces it and
    /// the search reruns; otherwise nothing changes.
    pub fn observe_host_period(&mut self, period_ns: i64)
        requires
            old(self).wf(),
        ensures
            final(self).wf(),
            final(self)@ == if period_ns == old(self)@.period_ns {
                old(self)@
            } else {
                negotiated(TimingView { period_ns, ..old(self)@ })
            },
    {
        if period_ns != self.period_ns {
            self.period_ns = period_ns;
            self.update_burst_settings();
        }
    }

    /// The integration step size, in nanoseconds.
    pub fn dt_ns(&self) -> (r: u64)
        ensures
            r == self@.dt_ns,
    {
        self.dt_ns
    }

    /// How many integrator steps one host tick takes.
    pub fn sub_step_count(&self) -> (r: u64)
        ensures
            r == self@.sub_steps,
    {
        self.sub_steps
    }

    /// The burst window, in nanoseconds.
    pub fn burst_ns(&self) -> (r: i64)
        ensures
            r == self@.burst_ns,
    {
        self.burst_ns
    }

    /// The host period in use, in nanoseconds.
    pub fn period_ns(&self) -> (r: i64)
        ensures
            r == self@.period_ns,
    {
        self.period_ns
    }

    /// The step-size table the search reads.
    pub fn table(&self) -> (r: &StepSizeTable)
        ensures
            r@ == self@.table,
            r.wf() == table_ordered(self@.table),
    {
        &self.table
    }
}

} // verus!
