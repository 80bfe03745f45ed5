//! Probing the latency of the measurement server: when to stop probing and
//! which probe counts.

use vstd::prelude::*;

verus! {

/// Most probes ever sent.
pub const MAX_PROBES: usize = 8;

/// Probes that are sent whatever time they take.
pub const MIN_PROBES: usize = 2;

/// Time after which no further probe is started once `MIN_PROBES` are in,
/// in nanoseconds: one second.
pub const PROBE_BUDGET_NANOS: u128 = 1_000_000_000;

/// Whether another probe is due after `taken` probes and `elapsed_nanos`
/// nanoseconds of probing.
pub open spec fn probe_due(taken: nat, elapsed_nanos: nat) -> bool {
    taken < MAX_PROBES && !(taken >= MIN_PROBES && elapsed_nanos > PROBE_BUDGET_NANOS)
}

/// Whether `best` is the shortest of `latencies`.
pub open spec fn is_fastest(best: u128, latencies: Seq<u128>) -> bool {
    &&& latencies.contains(best)
    &&& forall|i: int| 0 <= i < latencies.len() ==> best <= latencies[i]
}

/// Decides whether to send another probe.
pub fn probe_again(taken: usize, elapsed_nanos: u128) -> (again: bool)
    ensures
        again == probe_due(taken as nat, elapsed_nanos as nat),
{
    taken < MAX_PROBES && !(taken >= MIN_PROBES && elapsed_nanos > PROBE_BUDGET_NANOS)
}

/// The latency to report: the shortest round trip among the probes, in the
/// unit they were measured in. There is none without a probe.
pub fn fastest(latencies: &Vec<u128>) -> (best: Option<u128>)
    ensures
        match best {
            Some(b) => is_fastest(b, latencies@),
            None => latencies@.len() == 0,
        },
{
    let n: usize = latencies.len();
    if n == 0 {
        return None;
    }
    let mut best: u128 = latencies[0];
    let mut i: usize = 1;
    while i < n
        invariant
            1 <= i <= n,
            n == latencies@.len(),
            exists|k: int| 0 <= k < i && latencies@[k] == best,
            forall|k: int| 0 <= k < i ==> best <= latencies@[k],
        decreases n - i,
    {
        if latencies[i] < best {
            best = latencies[i];
        }
        i = i + 1;
    }
    Some(best)
}

} // verus!
