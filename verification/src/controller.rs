//! The control loop of one phase, as a state machine.
//!
//! The controller never touches a thread, a socket or a clock. Whoever drives
//! it reports what happened (the counter was read, the tick interval passed,
//! a worker was joined) and carries out what the controller answers.

use vstd::prelude::*;
use crate::config::{
    BASE_PHASE_DURATION_SEC, DEADLINE_EXTENSION_SEC, SCALE_UP_DELAY_MS, STAGGER_MS,
};
use crate::error::TransferError;
use crate::trend::{still_climbing, MeasurementHistory};

verus! {

/// Where a phase stands.
#[derive(Clone, Copy, Debug, PartialEq, Eq, Structural)]
pub enum Stage {
    /// No worker has been asked for yet.
    Priming,
    /// Workers run and the next reading of the counter is awaited.
    Sampling,
    /// A reading has been recorded and the trend is to be consulted.
    ScalingDecision,
    /// The stop signal is up and workers are being joined.
    Draining,
    /// Every worker has been joined.
    Done,
    /// A worker ended abnormally; the phase has no result.
    Failed,
}

/// What can happen to a phase.
#[derive(Clone, Copy, Debug, PartialEq, Eq, Structural)]
pub enum Event {
    /// The phase is told to start its initial workers.
    Prime,
    /// The byte counter read `total` when the clock read `now`.
    Sample { total: u64, now: u64 },
    /// The trend of the samples is consulted.
    Decide,
    /// The tick interval has passed and the clock reads `now`.
    Woke { now: u64 },
    /// A worker returned and was joined.
    Joined,
    /// A worker was joined but had not returned normally.
    JoinFailed,
}

/// A worker to start, after waiting `delay_ms` milliseconds.
#[derive(Clone, Copy, Debug, PartialEq, Eq, Structural)]
pub struct SpawnRequest {
    pub delay_ms: u64,
}

/// What one reading of the byte counter measured.
#[derive(Clone, Copy, Debug, PartialEq, Eq, Structural)]
pub struct Reading {
    /// Bytes moved since the previous tick; also the new rate estimate.
    pub sample: u64,
    /// Whether the tick fell before the deadline and is to be shown.
    pub display: bool,
}

/// The deadline after one extension. It stops at the largest timestamp.
pub open spec fn extended(deadline: u64) -> u64 {
    if deadline + DEADLINE_EXTENSION_SEC <= u64::MAX {
        (deadline + DEADLINE_EXTENSION_SEC) as u64
    } else {
        u64::MAX
    }
}

/// The deadline of a phase that starts at `now`.
pub open spec fn initial_deadline(now: u64) -> u64 {
    if now + BASE_PHASE_DURATION_SEC <= u64::MAX {
        (now + BASE_PHASE_DURATION_SEC) as u64
    } else {
        u64::MAX
    }
}

/// Bytes moved between two readings of the counter. A reading below the
/// previous one counts as no progress.
pub open spec fn delta(previous: u64, total: u64) -> u64 {
    if total >= previous {
        (total - previous) as u64
    } else {
        0
    }
}

/// The requests that start `count` initial workers, each a stagger later
/// than the one before.
pub open spec fn initial_requests(count: u32) -> Seq<SpawnRequest> {
    Seq::new(count as nat, |i: int| SpawnRequest { delay_ms: (STAGGER_MS * i) as u64 })
}

/// The state of a phase, as the contracts speak of it.
pub struct PhaseState {
    pub stage: Stage,
    /// Seconds since the epoch after which the phase stops sampling.
    pub deadline: u64,
    /// The stop signal as the controller last set it.
    pub stop: bool,
    /// The samples taken so far, oldest first.
    pub history: Seq<nat>,
    /// The counter reading of the previous tick.
    pub last_total: u64,
    /// Workers the phase starts with.
    pub initial_workers: u32,
    /// Workers asked for so far.
    pub spawned: nat,
    /// Workers joined so far.
    pub joined: nat,
}

impl PhaseState {
    /// The state of a phase that starts at `now`.
    pub open spec fn starting(now: u64, initial_workers: u32) -> PhaseState {
        PhaseState {
            stage: Stage::Priming,
            deadline: initial_deadline(now),
            stop: false,
            history: Seq::empty(),
            last_total: 0,
            initial_workers,
            spawned: 0,
            joined: 0,
        }
    }

    /// What holds of every state a phase can reach.
    pub open spec fn wf(self) -> bool {
        &&& self.stop == (self.stage == Stage::Draining || self.stage == Stage::Done || self.stage
            == Stage::Failed)
        &&& self.joined <= self.spawned
        &&& self.spawned <= self.initial_workers + self.history.len()
        &&& self.stage == Stage::Priming ==> self.spawned == 0 && self.history.len() == 0
        &&& self.stage != Stage::Priming ==> self.spawned >= self.initial_workers
        &&& self.stage == Stage::Sampling ==> self.joined == 0
        &&& self.stage == Stage::ScalingDecision ==> self.joined == 0 && self.spawned
            < self.initial_workers + self.history.len()
        &&& self.stage == Stage::Draining ==> self.joined < self.spawned
        &&& self.stage == Stage::Done ==> self.joined == self.spawned
        &&& forall|i: int| 0 <= i < self.history.len() ==> self.history[i] <= u64::MAX
    }

    /// Workers that have been asked for and not yet joined.
    pub open spec fn outstanding(self) -> nat {
        (self.spawned - self.joined) as nat
    }

    /// The throughput of the phase: the sample of its last tick, once the
    /// phase is done. A phase that never sampled has none.
    pub open spec fn result(self) -> Option<u64> {
        if self.stage == Stage::Done && self.history.len() > 0 {
            Some(self.history.last() as u64)
        } else {
            None
        }
    }

    /// The rate estimate that download workers size their reads by: the
    /// bytes moved during the last tick, zero before the first.
    pub open spec fn rate_estimate(self) -> nat {
        if self.history.len() > 0 {
            self.history.last()
        } else {
            0
        }
    }

    /// What a reading reports when the counter reads `total` at time `now`.
    pub open spec fn reading(self, total: u64, now: u64) -> Reading {
        Reading { sample: delta(self.last_total, total), display: now < self.deadline }
    }

    /// The state after `event`. An event that does not belong to the current
    /// stage changes nothing.
    pub open spec fn after(self, event: Event) -> PhaseState {
        match (self.stage, event) {
            (Stage::Priming, Event::Prime) => PhaseState {
                stage: Stage::Sampling,
                spawned: self.initial_workers as nat,
                ..self
            },
            (Stage::Sampling, Event::Sample { total, now }) => PhaseState {
                stage: Stage::ScalingDecision,
                history: self.history.push(delta(self.last_total, total) as nat),
                last_total: total,
                ..self
            },
            (Stage::ScalingDecision, Event::Decide) => {
                if still_climbing(self.history) {
                    PhaseState {
                        stage: Stage::Sampling,
                        deadline: extended(self.deadline),
                        spawned: self.spawned + 1,
                        ..self
                    }
                } else {
                    PhaseState { stage: Stage::Sampling, ..self }
                }
            },
            (Stage::Sampling, Event::Woke { now }) => {
                if now > self.deadline {
                    PhaseState {
                        stage: if self.spawned == 0 {
                            Stage::Done
                        } else {
                            Stage::Draining
                        },
                        stop: true,
                        ..self
                    }
                } else {
                    self
                }
            },
            (Stage::Draining, Event::Joined) => PhaseState {
                stage: if self.joined + 1 == self.spawned {
                    Stage::Done
                } else {
                    Stage::Draining
                },
                joined: self.joined + 1,
                ..self
            },
            (Stage::Draining, Event::JoinFailed) => PhaseState { stage: Stage::Failed, ..self },
            _ => self,
        }
    }

    /// The state after a run of events, taken in order.
    pub open spec fn run(self, events: Seq<Event>) -> PhaseState
        decreases events.len(),
    {
        if events.len() == 0 {
            self
        } else {
            self.run(events.drop_last()).after(events.last())
        }
    }
}

/// Number of steps of a run at which the stop signal goes from down to up.
pub open spec fn raises(start: PhaseState, events: Seq<Event>) -> nat
    decreases events.len(),
{
    if events.len() == 0 {
        0
    } else {
        let before = start.run(events.drop_last());
        let rose: nat = if !before.stop && before.after(events.last()).stop {
            1
        } else {
            0
        };
        raises(start, events.drop_last()) + rose
    }
}

/// Number of normal joins among `events`.
pub open spec fn joins(events: Seq<Event>) -> nat
    decreases events.len(),
{
    if events.len() == 0 {
        0
    } else {
        let one: nat = if events.last() == Event::Joined {
            1
        } else {
            0
        };
        joins(events.drop_last()) + one
    }
}

/// Every event leads from a reachable state to a reachable state.
pub proof fn step_keeps_well_formed(state: PhaseState, event: Event)
    requires
        state.wf(),
    ensures
        state.after(event).wf(),
{
}

/// Whatever happens to a phase, its state stays well formed.
pub proof fn phase_stays_well_formed(now: u64, initial_workers: u32, events: Seq<Event>)
    ensures
        PhaseState::starting(now, initial_workers).run(events).wf(),
    decreases events.len(),
{
    let start = PhaseState::starting(now, initial_workers);
    if events.len() > 0 {
        phase_stays_well_formed(now, initial_workers, events.drop_last());
        step_keeps_well_formed(start.run(events.drop_last()), events.last());
    }
}

/// A phase is only ever declared done with its stop signal up and every
/// worker it asked for joined.
pub proof fn done_means_all_joined(now: u64, initial_workers: u32, events: Seq<Event>)
    requires
        PhaseState::starting(now, initial_workers).run(events).stage == Stage::Done,
    ensures
        PhaseState::starting(now, initial_workers).run(events).stop,
        PhaseState::starting(now, initial_workers).run(events).outstanding() == 0,
{
    phase_stays_well_formed(now, initial_workers, events);
}

/// The stop signal goes up at most once and never comes down: over any run
/// of events it rises exactly once if it ends up raised and was not raised
/// at the start, and not at all otherwise.
pub proof fn stop_signal_rises_once(start: PhaseState, events: Seq<Event>)
    ensures
        start.stop ==> start.run(events).stop,
        raises(start, events) == if !start.stop && start.run(events).stop {
            1nat
        } else {
            0nat
        },
    decreases events.len(),
{
    if events.len() > 0 {
        stop_signal_rises_once(start, events.drop_last());
    }
}

/// The deadline of a phase only ever moves later.
pub proof fn deadline_never_shortens(start: PhaseState, events: Seq<Event>)
    ensures
        start.run(events).deadline >= start.deadline,
    decreases events.len(),
{
    if events.len() > 0 {
        deadline_never_shortens(start, events.drop_last());
    }
}

/// A scaling decision is all or nothing: when the samples show throughput
/// still climbing, it asks for exactly one more worker and moves the
/// deadline by one tick; otherwise it asks for none and leaves the deadline
/// alone. Either way sampling goes on.
pub proof fn scaling_adds_one_worker_and_one_tick(state: PhaseState)
    requires
        state.stage == Stage::ScalingDecision,
    ensures
        state.after(Event::Decide).stage == Stage::Sampling,
        still_climbing(state.history) ==> {
            &&& state.after(Event::Decide).spawned == state.spawned + 1
            &&& state.after(Event::Decide).deadline == extended(state.deadline)
        },
        !still_climbing(state.history) ==> {
            &&& state.after(Event::Decide).spawned == state.spawned
            &&& state.after(Event::Decide).deadline == state.deadline
        },
{
}

/// Draining ends: once the stop signal is up, the phase is done as soon as
/// every outstanding worker has returned and been joined, whatever else is
/// reported in between.
pub proof fn draining_completes(state: PhaseState, events: Seq<Event>)
    requires
        state.wf(),
        state.stage == Stage::Draining,
        forall|i: int| 0 <= i < events.len() ==> events[i] != Event::JoinFailed,
    ensures
        joins(events) >= state.outstanding() ==> state.run(events).stage == Stage::Done,
        joins(events) < state.outstanding() ==> state.run(events) == (PhaseState {
            joined: state.joined + joins(events),
            ..state
        }),
    decreases events.len(),
{
    if events.len() > 0 {
        draining_completes(state, events.drop_last());
    }
}

/// A phase always comes to its end: whatever its deadline, a wake-up past
/// it raises the stop signal, and the joins of the workers asked for until
/// then complete the phase.
pub proof fn phase_terminates(state: PhaseState, now: u64, events: Seq<Event>)
    requires
        state.wf(),
        state.stage == Stage::Sampling,
        now > state.deadline,
        forall|i: int| 0 <= i < events.len() ==> events[i] != Event::JoinFailed,
        joins(events) >= state.spawned,
    ensures
        state.after(Event::Woke { now }).stop,
        state.after(Event::Woke { now }).run(events).stage == Stage::Done,
{
    let draining = state.after(Event::Woke { now });
    if state.spawned == 0 {
        done_is_final(draining, events);
    } else {
        draining_completes(draining, events);
    }
}

/// Nothing moves a phase that is done.
pub proof fn done_is_final(state: PhaseState, events: Seq<Event>)
    requires
        state.stage == Stage::Done,
    ensures
        state.run(events) == state,
    decreases events.len(),
{
    if events.len() > 0 {
        done_is_final(state, events.drop_last());
    }
}

/// The controller of one phase.
pub struct Controller {
    stage: Stage,
    deadline: u64,
    stop: bool,
    history: MeasurementHistory,
    last_total: u64,
    initial_workers: u32,
    spawned: u128,
    joined: u128,
}

impl View for Controller {
    type V = PhaseState;

    closed spec fn view(&self) -> PhaseState {
        PhaseState {
            stage: self.stage,
            deadline: self.deadline,
            stop: self.stop,
            history: self.history@,
            last_total: self.last_total,
            initial_workers: self.initial_workers,
            spawned: self.spawned as nat,
            joined: self.joined as nat,
        }
    }
}

impl Controller {
    /// A controller for a phase that starts at `now`, in seconds since the
    /// epoch, with `initial_workers` workers.
    pub fn new(now: u64, initial_workers: u32) -> (controller: Controller)
        ensures
            controller@ == PhaseState::starting(now, initial_workers),
            controller@.wf(),
    {
        Controller {
            stage: Stage::Priming,
            deadline: now.saturating_add(BASE_PHASE_DURATION_SEC),
            stop: false,
            history: MeasurementHistory::new(),
            last_total: 0,
            initial_workers,
            spawned: 0,
            joined: 0,
        }
    }

    /// Where the phase stands.
    pub fn stage(&self) -> (stage: Stage)
        ensures
            stage == self@.stage,
    {
        self.stage
    }

    /// The deadline, in seconds since the epoch.
    pub fn deadline(&self) -> (deadline: u64)
        ensures
            deadline == self@.deadline,
    {
        self.deadline
    }

    /// The stop signal as workers are to see it.
    pub fn stop_signal(&self) -> (stop: bool)
        ensures
            stop == self@.stop,
    {
        self.stop
    }

    /// The rate estimate for download workers: the bytes moved during the
    /// last tick, zero before the first.
    pub fn rate_estimate(&self) -> (rate: u64)
        ensures
            rate == self@.rate_estimate(),
    {
        match self.history.last() {
            Some(sample) => sample,
            None => 0,
        }
    }

    /// The samples taken so far.
    pub fn history(&self) -> (history: &MeasurementHistory)
        ensures
            history@ == self@.history,
    {
        &self.history
    }

    /// Workers asked for so far.
    pub fn workers_spawned(&self) -> (spawned: u128)
        ensures
            spawned == self@.spawned,
    {
        self.spawned
    }

    /// Workers asked for and not yet joined.
    pub fn workers_outstanding(&self) -> (outstanding: u128)
        requires
            self@.wf(),
        ensures
            outstanding == self@.outstanding(),
    {
        self.spawned - self.joined
    }

    /// The throughput of the phase: the sample of its last tick, once every
    /// worker has been joined.
    pub fn result(&self) -> (sample: Option<u64>)
        ensures
            sample == self@.result(),
            sample matches Some(s) ==> s as nat == self@.history.last(),
    {
        if self.stage == Stage::Done {
            self.history.last()
        } else {
            None
        }
    }

    /// Priming: asks for the initial workers, staggered, and starts sampling.
    /// In any other stage nothing changes and no worker is asked for.
    pub fn prime(&mut self) -> (requests: Vec<SpawnRequest>)
        requires
            old(self)@.wf(),
        ensures
            final(self)@ == old(self)@.after(Event::Prime),
            final(self)@.wf(),
            requests@ == if old(self)@.stage == Stage::Priming {
                initial_requests(old(self)@.initial_workers)
            } else {
                Seq::empty()
            },
    {
        let mut requests: Vec<SpawnRequest> = Vec::new();
        if self.stage != Stage::Priming {
            return requests;
        }
        let count: u32 = self.initial_workers;
        let mut index: u32 = 0;
        while index < count
            invariant
                index <= count,
                requests@ == initial_requests(index),
            decreases count - index,
        {
            requests.push(SpawnRequest { delay_ms: STAGGER_MS * (index as u64) });
            index = index + 1;
        }
        self.stage = Stage::Sampling;
        self.spawned = count as u128;
        requests
    }

    /// Sampling: takes the counter reading `total` at time `now` and records
    /// the bytes moved since the previous tick, which the scaling decision
    /// is then made on. Outside sampling nothing changes and nothing is
    /// reported.
    pub fn sample(&mut self, total: u64, now: u64) -> (reading: Option<Reading>)
        requires
            old(self)@.wf(),
        ensures
            final(self)@ == old(self)@.after(Event::Sample { total, now }),
            final(self)@.wf(),
            reading == if old(self)@.stage == Stage::Sampling {
                Some(old(self)@.reading(total, now))
            } else {
                None
            },
    {
        if self.stage != Stage::Sampling {
            return None;
        }
        let sample: u64 = if total >= self.last_total {
            total - self.last_total
        } else {
            0
        };
        let display: bool = now < self.deadline;
        self.history.push(sample);
        self.last_total = total;
        self.stage = Stage::ScalingDecision;
        Some(Reading { sample, display })
    }

    /// The scaling decision: if throughput is still climbing, asks for one
    /// more worker and moves the deadline by one tick. Sampling goes on
    /// either way. Outside a scaling decision nothing changes and no worker
    /// is asked for.
    pub fn decide(&mut self) -> (request: Option<SpawnRequest>)
        requires
            old(self)@.wf(),
        ensures
            final(self)@ == old(self)@.after(Event::Decide),
            final(self)@.wf(),
            request == if old(self)@.stage == Stage::ScalingDecision && still_climbing(
                old(self)@.history,
            ) {
                Some(SpawnRequest { delay_ms: SCALE_UP_DELAY_MS })
            } else {
                None
            },
    {
        if self.stage != Stage::ScalingDecision {
            return None;
        }
        self.stage = Stage::Sampling;
        if self.history.still_climbing() {
            proof {
                self.history.length_fits();
            }
            self.deadline = self.deadline.saturating_add(DEADLINE_EXTENSION_SEC);
            self.spawned = self.spawned + 1;
            Some(SpawnRequest { delay_ms: SCALE_UP_DELAY_MS })
        } else {
            None
        }
    }

    /// The termination check, made when the tick interval has passed: once
    /// `now` is past the deadline the stop signal goes up and the phase
    /// starts draining. Returns whether the signal was raised by this call.
    pub fn woke(&mut self, now: u64) -> (raised: bool)
        requires
            old(self)@.wf(),
        ensures
            final(self)@ == old(self)@.after(Event::Woke { now }),
            final(self)@.wf(),
            raised == (old(self)@.stage == Stage::Sampling && now > old(self)@.deadline),
            raised == (!old(self)@.stop && final(self)@.stop),
    {
        if self.stage == Stage::Sampling && now > self.deadline {
            self.stop = true;
            self.stage = if self.spawned == 0 {
                Stage::Done
            } else {
                Stage::Draining
            };
            true
        } else {
            false
        }
    }

    /// Draining: records that a worker was joined, normally or not. The
    /// phase is done with the last normal join; an abnormal one fails it.
    /// Returns the stage reached, or the failure.
    pub fn joined(&mut self, normal: bool) -> (outcome: Result<Stage, TransferError>)
        requires
            old(self)@.wf(),
        ensures
            final(self)@ == old(self)@.after(
                if normal {
                    Event::Joined
                } else {
                    Event::JoinFailed
                },
            ),
            final(self)@.wf(),
            outcome == if old(self)@.stage == Stage::Draining && !normal {
                Err::<Stage, TransferError>(TransferError::JoinFailure)
            } else {
                Ok::<Stage, TransferError>(final(self)@.stage)
            },
    {
        if self.stage != Stage::Draining {
            return Ok(self.stage);
        }
        if !normal {
            self.stage = Stage::Failed;
            return Err(TransferError::JoinFailure);
        }
        self.joined = self.joined + 1;
        if self.joined == self.spawned {
            self.stage = Stage::Done;
        }
        Ok(self.stage)
    }
}

} // verus!
