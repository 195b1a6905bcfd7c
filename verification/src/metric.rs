use vstd::prelude::*;

use vstd::arithmetic::div_mod::lemma_div_of0;
use vstd::arithmetic::div_mod::lemma_div_pos_is_pos;

verus! {

/// Fixed-point scale of the metric's integer reading: one unit of the
/// ratio is this many millionths.
pub const METRIC_SCALE: u64 = 1_000_000;

/// The published contention metric: the ratio of cumulative lock-wait time
/// to cumulative sampling time, kept as the exact pair of totals it was
/// derived from. The ratio of the empty pair (no samples folded in yet) is
/// zero.
#[derive(Clone, Copy, PartialEq, Eq, Debug)]
pub struct Metric {
    /// Cumulative lock-wait time, in microseconds.
    pub waiting_micros: u64,
    /// Cumulative sampling time, in microseconds.
    pub sampling_micros: u64,
}

impl Metric {
    /// Numerator of the ratio; zero when no sampling time has accumulated.
    pub open spec fn spec_num(self) -> int {
        if self.sampling_micros == 0 {
            0
        } else {
            self.waiting_micros as int
        }
    }

    /// Denominator of the ratio; one when no sampling time has accumulated,
    /// so the ratio of the empty pair is zero rather than undefined.
    pub open spec fn spec_den(self) -> int {
        if self.sampling_micros == 0 {
            1
        } else {
            self.sampling_micros as int
        }
    }

    /// The metric reads as exactly zero.
    pub open spec fn is_zero(self) -> bool {
        self.spec_num() == 0
    }

    /// The ratio as a fixed-point integer in millionths, rounded down.
    pub open spec fn spec_value_millionths(self) -> int {
        self.spec_num() * METRIC_SCALE / self.spec_den()
    }

    /// Strict order of two ratios, by cross multiplication.
    pub open spec fn ratio_lt(self, other: Metric) -> bool {
        self.spec_num() * other.spec_den() < other.spec_num() * self.spec_den()
    }

    /// The metric before any window has completed: exactly zero.
    pub fn zero() -> (m: Metric)
        ensures
            m == (Metric { waiting_micros: 0, sampling_micros: 0 }),
            m.is_zero(),
            m.spec_value_millionths() == 0,
    {
        let m = Metric { waiting_micros: 0, sampling_micros: 0 };
        proof {
            lemma_zero_metric_value(m);
        }
        m
    }

    /// The ratio as a fixed-point integer in millionths, rounded down;
    /// zero before any sampling time has accumulated.
    pub fn value_millionths(&self) -> (r: u128)
        ensures
            r == self.spec_value_millionths(),
    {
        if self.sampling_micros == 0 {
            0
        } else {
            let w: u128 = self.waiting_micros as u128;
            proof {
                assert(w * (METRIC_SCALE as int) <= (u64::MAX as int) * (METRIC_SCALE as int))
                    by (nonlinear_arith)
                    requires
                        w <= u64::MAX,
                ;
            }
            w * (METRIC_SCALE as u128) / (self.sampling_micros as u128)
        }
    }
}

/// The contention metric is never negative: every reading of every
/// published value lies in `[0, +infinity)`.
pub proof fn lemma_metric_value_nonneg(m: Metric)
    ensures
        0 <= m.spec_value_millionths(),
{
    lemma_div_pos_is_pos(m.spec_num() * METRIC_SCALE, m.spec_den());
}

/// A metric that is zero reads as exactly zero.
pub proof fn lemma_zero_metric_value(m: Metric)
    requires
        m.is_zero(),
    ensures
        m.spec_value_millionths() == 0,
{
    lemma_div_of0(m.spec_den());
}

/// With equal cumulative sampling time, strictly more cumulative wait time
/// gives a strictly greater metric: a monitor that observes a contended
/// lock reads higher than one that observes an uncontended lock, all else
/// equal.
pub proof fn lemma_more_waiting_greater_metric(a: Metric, b: Metric)
    requires
        a.sampling_micros == b.sampling_micros,
        a.sampling_micros > 0,
        a.waiting_micros < b.waiting_micros,
    ensures
        a.ratio_lt(b),
{
    assert((a.waiting_micros as int) * (b.sampling_micros as int) < (b.waiting_micros as int)
        * (a.sampling_micros as int)) by (nonlinear_arith)
        requires
            a.sampling_micros == b.sampling_micros,
            a.sampling_micros > 0,
            a.waiting_micros < b.waiting_micros,
    ;
}

} // verus!
