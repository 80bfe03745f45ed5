//! A phase at constant throughput, from its first tick to its stop signal.

use vstd::prelude::*;
use crate::config::BASE_PHASE_DURATION_SEC;
use crate::controller::{Event, PhaseState, Stage};
use crate::counter::{capped, reading_after, sum};

verus! {

/// The additions that reach the byte counter during `ticks` ticks while the
/// workers together move `rate` bytes per tick.
pub open spec fn steady_arrivals(rate: u64, ticks: nat) -> Seq<nat> {
    Seq::new(ticks, |i: int| rate as nat)
}

/// What happens to a phase during its first `ticks` ticks if it starts at
/// `start` and its workers move `rate` bytes per tick from then on: at every
/// tick the counter is read and the trend consulted, and a tick later the
/// driver wakes up.
pub open spec fn steady_ticks(start: u64, rate: u64, ticks: nat) -> Seq<Event>
    decreases ticks,
{
    if ticks == 0 {
        Seq::empty()
    } else {
        let before = (ticks - 1) as nat;
        steady_ticks(start, rate, before).push(
            Event::Sample { total: (rate * before) as u64, now: (start + before) as u64 },
        ).push(Event::Decide).push(Event::Woke { now: (start + before + 1) as u64 })
    }
}

/// The samples of a phase at constant throughput: nothing at the first
/// tick, when the workers have only just started, and `rate` bytes at every
/// tick after it.
pub open spec fn steady_history(rate: u64, ticks: nat) -> Seq<nat> {
    Seq::new(
        ticks,
        |i: int|
            if i == 0 {
                0nat
            } else {
                rate as nat
            },
    )
}

/// The state of a primed phase at constant throughput after `ticks` ticks,
/// none of which was past the deadline.
pub open spec fn steady_state(start: u64, workers: u32, rate: u64, ticks: nat) -> PhaseState {
    PhaseState {
        stage: Stage::Sampling,
        history: steady_history(rate, ticks),
        last_total: if ticks == 0 {
            0
        } else {
            (rate * (ticks - 1)) as u64
        },
        spawned: workers as nat,
        ..PhaseState::starting(start, workers)
    }
}

/// The state after a run that ends with `event` is the state after the run
/// before it, then `event`.
pub proof fn run_then(state: PhaseState, events: Seq<Event>, event: Event)
    ensures
        state.run(events.push(event)) == state.run(events).after(event),
{
    assert(events.push(event).drop_last() =~= events);
}

/// A counter that starts at zero and takes `rate` bytes per tick reads
/// `rate` times the number of ticks, as far as 64 bits can show it.
pub proof fn steady_counter_reading(rate: u64, ticks: nat)
    ensures
        sum(steady_arrivals(rate, ticks)) == rate * ticks,
        reading_after(0, steady_arrivals(rate, ticks)) == capped((rate * ticks) as nat),
    decreases ticks,
{
    crate::counter::reading_is_sum(0, steady_arrivals(rate, ticks));
    if ticks > 0 {
        let before = (ticks - 1) as nat;
        steady_counter_reading(rate, before);
        assert(steady_arrivals(rate, ticks).drop_last() =~= steady_arrivals(rate, before));
        assert(rate * ticks == rate * before + rate) by (nonlinear_arith)
            requires
                before == ticks - 1,
        ;
    }
}

/// At constant throughput nothing but time passes: as long as no wake-up is
/// past the deadline, the phase goes on sampling with the workers and the
/// deadline it started with.
pub proof fn steady_phase_keeps_sampling(start: u64, workers: u32, rate: u64, ticks: nat)
    requires
        ticks <= BASE_PHASE_DURATION_SEC,
        start + BASE_PHASE_DURATION_SEC + 1 <= u64::MAX,
        rate * (BASE_PHASE_DURATION_SEC + 1) <= u64::MAX,
    ensures
        PhaseState::starting(start, workers).after(Event::Prime).run(
            steady_ticks(start, rate, ticks),
        ) == steady_state(start, workers, rate, ticks),
    decreases ticks,
{
    if ticks == 0 {
        assert(steady_history(rate, 0) =~= Seq::<nat>::empty());
    } else {
        let before = (ticks - 1) as nat;
        steady_phase_keeps_sampling(start, workers, rate, before);
        steady_tick(start, workers, rate, before);
    }
}

/// One more tick of a phase at constant throughput: the state it leaves
/// behind, whether or not its wake-up is past the deadline.
proof fn steady_tick(start: u64, workers: u32, rate: u64, before: nat)
    requires
        before <= BASE_PHASE_DURATION_SEC,
        start + BASE_PHASE_DURATION_SEC + 1 <= u64::MAX,
        rate * (BASE_PHASE_DURATION_SEC + 1) <= u64::MAX,
        PhaseState::starting(start, workers).after(Event::Prime).run(
            steady_ticks(start, rate, before),
        ) == steady_state(start, workers, rate, before),
    ensures
        PhaseState::starting(start, workers).after(Event::Prime).run(
            steady_ticks(start, rate, before + 1),
        ) == steady_state(start, workers, rate, before + 1).after(
            Event::Woke { now: (start + before + 1) as u64 },
        ),
{
    let primed = PhaseState::starting(start, workers).after(Event::Prime);
    let earlier = steady_ticks(start, rate, before);
    let sample = Event::Sample { total: (rate * before) as u64, now: (start + before) as u64 };
    let woke = Event::Woke { now: (start + before + 1) as u64 };
    let old_state = steady_state(start, workers, rate, before);

    assert(rate * before <= u64::MAX) by (nonlinear_arith)
        requires
            before <= 12,
            rate * 13 <= u64::MAX,
    ;
    if before > 0 {
        assert(rate * before == rate * (before - 1) + rate) by (nonlinear_arith);
    }
    let sampled = old_state.after(sample);
    assert(sampled.history =~= steady_history(rate, before + 1));
    let decided = sampled.after(Event::Decide);
    assert(decided == steady_state(start, workers, rate, before + 1));

    assert(steady_ticks(start, rate, before + 1) == earlier.push(sample).push(Event::Decide).push(
        woke,
    ));
    run_then(primed, earlier, sample);
    run_then(primed, earlier.push(sample), Event::Decide);
    run_then(primed, earlier.push(sample).push(Event::Decide), woke);
}

/// A phase at constant throughput ends one tick past its base duration.
///
/// With workers that move `rate` bytes in every tick from the start of the
/// phase, the trend never shows growth, so no worker is added and the
/// deadline stays where it was. The stop signal is still down after as many
/// ticks as the base duration has seconds and goes up at the wake-up of the
/// next one, which leaves only the workers to be joined. By then the counter
/// stands at `rate` times that number of ticks, which is within one tick's
/// worth of bytes of `rate` times the base duration.
pub proof fn steady_phase_ends_one_tick_past_base_duration(start: u64, workers: u32, rate: u64)
    requires
        start + BASE_PHASE_DURATION_SEC + 1 <= u64::MAX,
        rate * (BASE_PHASE_DURATION_SEC + 1) <= u64::MAX,
    ensures
        forall|ticks: nat|
            ticks <= BASE_PHASE_DURATION_SEC ==> !(#[trigger] PhaseState::starting(
                start,
                workers,
            ).after(Event::Prime).run(steady_ticks(start, rate, ticks))).stop,
        ({
            let end = PhaseState::starting(start, workers).after(Event::Prime).run(
                steady_ticks(start, rate, (BASE_PHASE_DURATION_SEC + 1) as nat),
            );
            let counted = reading_after(
                0,
                steady_arrivals(rate, (BASE_PHASE_DURATION_SEC + 1) as nat),
            );
            &&& end.stop
            &&& end.stage == if workers == 0 {
                Stage::Done
            } else {
                Stage::Draining
            }
            &&& end.spawned == workers
            &&& end.deadline == start + BASE_PHASE_DURATION_SEC
            &&& end.history.last() == rate
            &&& counted == rate * (BASE_PHASE_DURATION_SEC + 1)
            &&& rate * BASE_PHASE_DURATION_SEC - rate <= counted <= rate * BASE_PHASE_DURATION_SEC
                + rate
        }),
{
    assert forall|ticks: nat| ticks <= BASE_PHASE_DURATION_SEC implies !(
    #[trigger] PhaseState::starting(start, workers).after(Event::Prime).run(
        steady_ticks(start, rate, ticks),
    )).stop by {
        steady_phase_keeps_sampling(start, workers, rate, ticks);
    }
    steady_phase_keeps_sampling(start, workers, rate, BASE_PHASE_DURATION_SEC as nat);
    steady_tick(start, workers, rate, BASE_PHASE_DURATION_SEC as nat);
    steady_counter_reading(rate, (BASE_PHASE_DURATION_SEC + 1) as nat);
    assert(rate * (BASE_PHASE_DURATION_SEC + 1) == rate * BASE_PHASE_DURATION_SEC + rate)
        by (nonlinear_arith);
}

} // verus!
