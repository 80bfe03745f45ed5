//! The byte counter of a phase: what it reads after the workers' additions.

use vstd::prelude::*;

verus! {

/// The sum of a run of byte amounts.
pub open spec fn sum(amounts: Seq<nat>) -> nat
    decreases amounts.len(),
{
    if amounts.len() == 0 {
        0
    } else {
        sum(amounts.drop_last()) + amounts.last()
    }
}

/// The bytes all workers moved, each worker given by the amounts it added
/// in its own order.
pub open spec fn transferred(workers: Seq<Seq<nat>>) -> nat
    decreases workers.len(),
{
    if workers.len() == 0 {
        0
    } else {
        transferred(workers.drop_last()) + sum(workers.last())
    }
}

/// What a 64-bit counter shows of a byte count: the count itself, or the
/// largest value once the count no longer fits.
pub open spec fn capped(bytes: nat) -> nat {
    if bytes <= u64::MAX {
        bytes
    } else {
        u64::MAX as nat
    }
}

/// The reading of a counter that stood at `start` and then took the
/// additions `arrivals`, one after the other.
pub open spec fn reading_after(start: nat, arrivals: Seq<nat>) -> nat
    decreases arrivals.len(),
{
    if arrivals.len() == 0 {
        start
    } else {
        capped(reading_after(start, arrivals.drop_last()) + arrivals.last())
    }
}

/// The count of bytes moved in the current phase. It only grows until it is
/// reset at a phase boundary.
pub struct ByteCounter {
    total: u64,
}

impl View for ByteCounter {
    type V = nat;

    closed spec fn view(&self) -> nat {
        self.total as nat
    }
}

impl ByteCounter {
    /// A counter at zero.
    pub fn new() -> (counter: ByteCounter)
        ensures
            counter@ == 0,
    {
        ByteCounter { total: 0 }
    }

    /// Adds the bytes one transfer step moved. The counter never wraps: it
    /// stays at the largest value it can hold.
    pub fn add(&mut self, bytes: u64)
        ensures
            final(self)@ == capped(old(self)@ + bytes as nat),
            final(self)@ >= old(self)@,
    {
        self.total = self.total.saturating_add(bytes);
    }

    /// The current reading.
    pub fn total(&self) -> (total: u64)
        ensures
            total == self@,
    {
        self.total
    }

    /// A reading always fits in 64 bits.
    pub proof fn reading_fits(&self)
        ensures
            self@ == capped(self@),
    {
    }

    /// Sets the counter back to zero for the next phase.
    pub fn reset(&mut self)
        ensures
            final(self)@ == 0,
    {
        self.total = 0;
    }
}

/// The sum of two runs laid end to end is the sum of their sums.
pub proof fn sum_of_concatenation(front: Seq<nat>, back: Seq<nat>)
    ensures
        sum(front + back) == sum(front) + sum(back),
    decreases back.len(),
{
    if back.len() > 0 {
        assert((front + back).drop_last() =~= front + back.drop_last());
        sum_of_concatenation(front, back.drop_last());
    }
}

/// Taking one amount out of a run lowers the sum by that amount.
pub proof fn sum_without(amounts: Seq<nat>, index: int)
    requires
        0 <= index < amounts.len(),
    ensures
        sum(amounts) == sum(amounts.remove(index)) + amounts[index],
    decreases amounts.len(),
{
    if index < amounts.len() - 1 {
        assert(amounts.remove(index).drop_last() =~= amounts.drop_last().remove(index));
        sum_without(amounts.drop_last(), index);
    }
}

/// The sum of a run does not depend on the order of its amounts.
pub proof fn sum_ignores_order(one: Seq<nat>, other: Seq<nat>)
    requires
        one.to_multiset() == other.to_multiset(),
    ensures
        sum(one) == sum(other),
    decreases one.len(),
{
    one.to_multiset_ensures();
    other.to_multiset_ensures();
    if one.len() > 0 {
        let amount = one.last();
        assert(other.to_multiset().count(amount) > 0);
        let index = choose|i: int| 0 <= i < other.len() && other[i] == amount;
        assert(one.remove(one.len() - 1) =~= one.drop_last());
        sum_ignores_order(one.drop_last(), other.remove(index));
        sum_without(other, index);
    }
}

/// The amounts of all workers, laid end to end, sum to what the workers
/// moved.
pub proof fn sum_of_all_workers(workers: Seq<Seq<nat>>)
    ensures
        sum(workers.flatten()) == transferred(workers),
    decreases workers.len(),
{
    workers.lemma_flatten_and_flatten_alt_are_equivalent();
    if workers.len() > 0 {
        workers.drop_last().lemma_flatten_and_flatten_alt_are_equivalent();
        sum_of_all_workers(workers.drop_last());
        sum_of_concatenation(workers.drop_last().flatten(), workers.last());
    }
}

/// A counter that took a run of additions reads their sum on top of where
/// it stood, as far as 64 bits can show it.
pub proof fn reading_is_sum(start: nat, arrivals: Seq<nat>)
    requires
        start <= u64::MAX,
    ensures
        reading_after(start, arrivals) == capped(start + sum(arrivals)),
    decreases arrivals.len(),
{
    if arrivals.len() > 0 {
        reading_is_sum(start, arrivals.drop_last());
    }
}

/// No update is lost: however many workers there are and in whatever order
/// their additions reach the counter, a counter that started the phase at
/// zero ends it at the sum of what each worker moved.
pub proof fn counter_equals_bytes_transferred(workers: Seq<Seq<nat>>, arrivals: Seq<nat>)
    requires
        arrivals.to_multiset() == workers.flatten().to_multiset(),
    ensures
        reading_after(0, arrivals) == capped(transferred(workers)),
{
    reading_is_sum(0, arrivals);
    sum_ignores_order(arrivals, workers.flatten());
    sum_of_all_workers(workers);
}

} // verus!
