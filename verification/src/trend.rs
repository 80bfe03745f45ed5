//! The throughput samples of a phase and the trend read from them.

use vstd::prelude::*;
use crate::config::{GROWTH_THRESHOLD_PERCENT, HISTORY_WINDOW_FOR_TREND, STALL_TICKS};

verus! {

/// Bytes moved during the three most recent ticks.
pub open spec fn newer_total(history: Seq<nat>) -> nat
    recommends
        history.len() >= 6,
{
    let n = history.len() as int;
    history[n - 1] + history[n - 2] + history[n - 3]
}

/// Bytes moved during the three ticks before the three most recent ones.
pub open spec fn older_total(history: Seq<nat>) -> nat
    recommends
        history.len() >= 6,
{
    let n = history.len() as int;
    history[n - 4] + history[n - 5] + history[n - 6]
}

/// Whether a mean throughput of `newer / 3` is real growth over `older / 3`
/// by at least the threshold. Growth of exactly the threshold counts.
///
/// Both means are taken over three ticks, so the totals are compared and no
/// division rounds anything away. Equal totals are never growth, which keeps
/// a phase without any throughput from counting as climbing.
pub open spec fn grew_by_threshold(newer: nat, older: nat) -> bool {
    newer > older && 100 * newer >= (100 + GROWTH_THRESHOLD_PERCENT) * older
}

/// The scaling rule: with more samples than the trend window holds, the mean
/// of the last three exceeds the mean of the three before by the threshold.
pub open spec fn still_climbing(history: Seq<nat>) -> bool {
    history.len() > HISTORY_WINDOW_FOR_TREND && grew_by_threshold(
        newer_total(history),
        older_total(history),
    )
}

/// Whether throughput has been zero for a while: the phase has run for at
/// least `STALL_TICKS` ticks and none of the most recent ones moved a byte.
/// This is worth a warning, since it is what a phase looks like whose
/// workers have all failed.
pub open spec fn stalled(history: Seq<nat>) -> bool {
    history.len() >= STALL_TICKS && forall|i: int|
        history.len() - STALL_TICKS <= i < history.len() ==> history[i] == 0
}

/// Every sample of `history` multiplied by `factor`.
pub open spec fn scaled(history: Seq<nat>, factor: nat) -> Seq<nat> {
    Seq::new(history.len(), |i: int| factor * history[i])
}

/// The per-tick throughput samples of one phase, oldest first. Samples are
/// only ever appended.
pub struct MeasurementHistory {
    samples: Vec<u64>,
}

impl View for MeasurementHistory {
    type V = Seq<nat>;

    closed spec fn view(&self) -> Seq<nat> {
        Seq::new(self.samples@.len(), |i: int| self.samples@[i] as nat)
    }
}

impl MeasurementHistory {
    /// A history without samples.
    pub fn new() -> (history: MeasurementHistory)
        ensures
            history@ == Seq::<nat>::empty(),
    {
        let history = MeasurementHistory { samples: Vec::new() };
        history
    }

    /// Appends the sample of the tick that just ended.
    pub fn push(&mut self, sample: u64)
        ensures
            final(self)@ == old(self)@.push(sample as nat),
    {
        self.samples.push(sample);
    }

    /// A history never holds more samples than can be counted.
    pub proof fn length_fits(&self)
        ensures
            self@.len() <= usize::MAX,
    {
        assert(self@.len() == self.samples.len());
    }

    /// Number of samples taken so far.
    pub fn len(&self) -> (n: usize)
        ensures
            n == self@.len(),
    {
        self.samples.len()
    }

    /// The sample of tick `index`, counted from zero.
    pub fn get(&self, index: usize) -> (sample: Option<u64>)
        ensures
            match sample {
                Some(s) => index < self@.len() && s as nat == self@[index as int],
                None => index >= self@.len(),
            },
    {
        if index < self.samples.len() {
            Some(self.samples[index])
        } else {
            None
        }
    }

    /// The most recent sample, if any tick has ended yet.
    pub fn last(&self) -> (sample: Option<u64>)
        ensures
            match sample {
                Some(s) => self@.len() > 0 && s as nat == self@.last(),
                None => self@.len() == 0,
            },
    {
        let n: usize = self.samples.len();
        if n == 0 {
            None
        } else {
            Some(self.samples[n - 1])
        }
    }

    /// Tells whether throughput has been zero for a while.
    pub fn stalled(&self) -> (idle: bool)
        ensures
            idle == stalled(self@),
    {
        let n: usize = self.samples.len();
        if n < STALL_TICKS {
            return false;
        }
        let mut i: usize = n - STALL_TICKS;
        while i < n
            invariant
                n == self.samples@.len(),
                n - STALL_TICKS <= i <= n,
                forall|j: int| n - STALL_TICKS <= j < i ==> self@[j] == 0,
            decreases n - i,
        {
            if self.samples[i] != 0 {
                assert(self@[i as int] != 0);
                return false;
            }
            i = i + 1;
        }
        true
    }

    /// Decides whether throughput is still climbing.
    pub fn still_climbing(&self) -> (climbing: bool)
        ensures
            climbing == still_climbing(self@),
    {
        let n: usize = self.samples.len();
        if n <= HISTORY_WINDOW_FOR_TREND {
            return false;
        }
        let newer: u128 = self.samples[n - 1] as u128 + self.samples[n - 2] as u128
            + self.samples[n - 3] as u128;
        let older: u128 = self.samples[n - 4] as u128 + self.samples[n - 5] as u128
            + self.samples[n - 6] as u128;
        let wanted: u128 = 100 + GROWTH_THRESHOLD_PERCENT as u128;
        assert(wanted * older == 120 * older) by (nonlinear_arith)
            requires
                wanted == 120,
        ;
        newer > older && 100 * newer >= wanted * older
    }
}

/// Multiplying every sample by the same positive factor never changes the
/// scaling decision: the rule looks at relative growth only.
pub proof fn scaling_decision_ignores_scale(history: Seq<nat>, factor: nat)
    requires
        factor >= 1,
    ensures
        still_climbing(scaled(history, factor)) == still_climbing(history),
{
    if history.len() > HISTORY_WINDOW_FOR_TREND {
        let a = newer_total(history);
        let b = older_total(history);
        let n = history.len() as int;
        assert(newer_total(scaled(history, factor)) == factor * a) by (nonlinear_arith)
            requires
                a == history[n - 1] + history[n - 2] + history[n - 3],
                newer_total(scaled(history, factor)) == factor * history[n - 1] + factor
                    * history[n - 2] + factor * history[n - 3],
        ;
        assert(older_total(scaled(history, factor)) == factor * b) by (nonlinear_arith)
            requires
                b == history[n - 4] + history[n - 5] + history[n - 6],
                older_total(scaled(history, factor)) == factor * history[n - 4] + factor
                    * history[n - 5] + factor * history[n - 6],
        ;
        assert(grew_by_threshold(factor * a, factor * b) == grew_by_threshold(a, b))
            by (nonlinear_arith)
            requires
                factor >= 1,
        ;
    }
}

} // verus!
