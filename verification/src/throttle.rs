//! The throttled-refresh policy: expensive sub-metrics (filesystem usage,
//! cluster polling) are recomputed only every N sampling cycles and carried
//! forward unchanged in between.

use vstd::prelude::*;
use vstd::arithmetic::div_mod::lemma_multiply_divide_lt;

verus! {

/// The cycle period of a throttled feature: `(60 / interval) * (feature
/// interval / 60)` — that is, the feature's interval measured in sampling
/// cycles — rounded half up and clamped to at least one cycle. A feature
/// interval of 0 means "effectively rare" and yields the 900-cycle default.
pub open spec fn refresh_cycles(interval_secs: int, feature_interval_secs: int) -> int
    recommends
        interval_secs > 0,
        feature_interval_secs >= 0,
{
    if feature_interval_secs == 0 {
        900
    } else {
        let rounded = (2 * feature_interval_secs + interval_secs) / (2 * interval_secs);
        if rounded < 1 {
            1
        } else {
            rounded
        }
    }
}

/// A throttled feature recomputes exactly on the cycles where the running
/// cycle count is a whole multiple of its period.
pub open spec fn is_due(cycle: int, every: int) -> bool
    recommends
        every > 0,
{
    cycle % every == 0
}

/// Cycle-counting policy for one throttled feature.
pub struct ThrottledRefresh {
    every: u64,
}

impl ThrottledRefresh {
    /// The period in cycles.
    pub closed spec fn every_spec(&self) -> int {
        self.every as int
    }

    pub open spec fn wf(&self) -> bool {
        self.every_spec() > 0
    }

    /// Builds the policy from the sampling interval and the feature's own
    /// configured interval, both in seconds.
    pub fn new(interval_secs: u64, feature_interval_secs: u64) -> (r: Self)
        requires
            interval_secs > 0,
        ensures
            r.wf(),
            r.every_spec() == refresh_cycles(interval_secs as int, feature_interval_secs as int),
    {
        if feature_interval_secs == 0 {
            ThrottledRefresh { every: 900 }
        } else {
            let num: u128 = 2 * (feature_interval_secs as u128) + (interval_secs as u128);
            let den: u128 = 2 * (interval_secs as u128);
            let rounded: u128 = num / den;
            proof {
                assert(num < den * ((feature_interval_secs as int) + 1)) by (nonlinear_arith)
                    requires
                        num == 2 * (feature_interval_secs as int) + interval_secs,
                        den == 2 * (interval_secs as int),
                        interval_secs >= 1,
                        feature_interval_secs >= 1,
                ;
                lemma_multiply_divide_lt(num as int, den as int, feature_interval_secs + 1);
            }
            if rounded < 1 {
                ThrottledRefresh { every: 1 }
            } else {
                ThrottledRefresh { every: rounded as u64 }
            }
        }
    }

    /// Whether the feature is due for recomputation on this cycle.
    pub fn due(&self, cycle: u64) -> (r: bool)
        requires
            self.wf(),
        ensures
            r == is_due(cycle as int, self.every_spec()),
    {
        cycle % self.every == 0
    }

    /// The period in cycles, as a value.
    pub fn every(&self) -> (r: u64)
        ensures
            r == self.every_spec(),
    {
        self.every
    }
}

} // verus!
