//! The order of the phases: download first, upload only once the download
//! phase has joined its last worker.

use vstd::prelude::*;
use crate::controller::{Controller, PhaseState, Stage};
use crate::counter::ByteCounter;
use crate::error::TransferError;

verus! {

/// The direction a phase measures.
#[derive(Clone, Copy, Debug, PartialEq, Eq, Structural)]
pub enum Direction {
    Download,
    Upload,
}

/// How far a measurement has come, with the throughput of every phase that
/// is done.
#[derive(Clone, Copy, Debug, PartialEq, Eq)]
pub enum Progress {
    /// The download phase is the current one.
    Download,
    /// The download phase is done and the upload phase is the current one.
    Upload { download: Option<u64> },
    /// Both phases are done.
    Complete { download: Option<u64>, upload: Option<u64> },
    /// A worker of the phase in `direction` ended abnormally.
    Failed { direction: Direction },
}

impl Progress {
    /// The phase that is to run, if any is left.
    pub open spec fn current(self) -> Option<Direction> {
        match self {
            Progress::Download => Some(Direction::Download),
            Progress::Upload { .. } => Some(Direction::Upload),
            _ => None,
        }
    }

    /// Progress once the current phase has been looked at in state `phase`:
    /// a phase that is done hands over to what follows it, a failed one
    /// fails the measurement, and a phase still under way changes nothing.
    pub open spec fn advanced(self, phase: PhaseState) -> Progress {
        match self {
            Progress::Download => if phase.stage == Stage::Done {
                Progress::Upload { download: phase.result() }
            } else if phase.stage == Stage::Failed {
                Progress::Failed { direction: Direction::Download }
            } else {
                self
            },
            Progress::Upload { download } => if phase.stage == Stage::Done {
                Progress::Complete { download, upload: phase.result() }
            } else if phase.stage == Stage::Failed {
                Progress::Failed { direction: Direction::Upload }
            } else {
                self
            },
            _ => self,
        }
    }
}

/// A measurement, as the contracts speak of it.
pub struct Measurement {
    /// How far the measurement has come.
    pub progress: Progress,
    /// The phase that is under way, or the last one that was.
    pub phase: PhaseState,
    /// Workers every phase starts with.
    pub initial_workers: u32,
}

impl Measurement {
    /// Whether a look at the phase under way ends the download phase and
    /// begins the upload phase.
    pub open spec fn turns_to_upload(self) -> bool {
        self.progress.current() == Some(Direction::Download) && self.phase.stage == Stage::Done
    }

    /// The measurement after a look at its phase at time `now`. Moving on to
    /// the upload phase starts that phase from scratch: no samples, the stop
    /// signal down, a deadline of its own.
    pub open spec fn advanced(self, now: u64) -> Measurement {
        Measurement {
            progress: self.progress.advanced(self.phase),
            phase: if self.turns_to_upload() {
                PhaseState::starting(now, self.initial_workers)
            } else {
                self.phase
            },
            ..self
        }
    }
}

/// Runs the two phases of a measurement one after the other.
pub struct Orchestrator {
    progress: Progress,
    phase: Controller,
    initial_workers: u32,
}

impl View for Orchestrator {
    type V = Measurement;

    closed spec fn view(&self) -> Measurement {
        Measurement {
            progress: self.progress,
            phase: self.phase@,
            initial_workers: self.initial_workers,
        }
    }
}

impl Orchestrator {
    /// A measurement whose download phase starts at `now`.
    pub fn new(now: u64, initial_workers: u32) -> (orchestrator: Orchestrator)
        ensures
            orchestrator@ == (Measurement {
                progress: Progress::Download,
                phase: PhaseState::starting(now, initial_workers),
                initial_workers,
            }),
            orchestrator@.phase.wf(),
    {
        Orchestrator {
            progress: Progress::Download,
            phase: Controller::new(now, initial_workers),
            initial_workers,
        }
    }

    /// How far the measurement has come.
    pub fn progress(&self) -> (progress: Progress)
        ensures
            progress == self@.progress,
    {
        self.progress
    }

    /// The phase that is to run, if any is left.
    pub fn current(&self) -> (direction: Option<Direction>)
        ensures
            direction == self@.progress.current(),
    {
        match self.progress {
            Progress::Download => Some(Direction::Download),
            Progress::Upload { .. } => Some(Direction::Upload),
            _ => None,
        }
    }

    /// The controller of the phase under way.
    pub fn phase(&self) -> (controller: &Controller)
        ensures
            controller@ == self@.phase,
    {
        &self.phase
    }

    /// The controller of the phase under way, to report events to.
    pub fn phase_mut(&mut self) -> (controller: &mut Controller)
        ensures
            controller@ == old(self)@.phase,
            final(self)@ == (Measurement { phase: final(controller)@, ..old(self)@ }),
    {
        &mut self.phase
    }

    /// Looks at the phase under way and moves on if it is over: from a
    /// download phase that is done to an upload phase that starts at `now`,
    /// from an upload phase that is done to the end. Returns whether the
    /// phase was done and its result recorded; a failed phase fails the
    /// measurement.
    ///
    /// The byte counter is set back to zero when the upload phase begins,
    /// and at no other time.
    pub fn advance(&mut self, now: u64, counter: &mut ByteCounter) -> (outcome: Result<
        bool,
        TransferError,
    >)
        ensures
            final(self)@ == old(self)@.advanced(now),
            old(self)@.phase.wf() ==> final(self)@.phase.wf(),
            final(counter)@ == if old(self)@.turns_to_upload() {
                0
            } else {
                old(counter)@
            },
            outcome == if old(self)@.progress.current().is_some() && old(self)@.phase.stage
                == Stage::Failed {
                Err::<bool, TransferError>(TransferError::JoinFailure)
            } else {
                Ok::<bool, TransferError>(
                    old(self)@.progress.current().is_some() && old(self)@.phase.stage
                        == Stage::Done,
                )
            },
    {
        let stage: Stage = self.phase.stage();
        match self.progress {
            Progress::Download => {
                if stage == Stage::Done {
                    self.progress = Progress::Upload { download: self.phase.result() };
                    self.phase = Controller::new(now, self.initial_workers);
                    counter.reset();
                    Ok(true)
                } else if stage == Stage::Failed {
                    self.progress = Progress::Failed { direction: Direction::Download };
                    Err(TransferError::JoinFailure)
                } else {
                    Ok(false)
                }
            },
            Progress::Upload { download } => {
                if stage == Stage::Done {
                    self.progress = Progress::Complete { download, upload: self.phase.result() };
                    Ok(true)
                } else if stage == Stage::Failed {
                    self.progress = Progress::Failed { direction: Direction::Upload };
                    Err(TransferError::JoinFailure)
                } else {
                    Ok(false)
                }
            },
            _ => Ok(false),
        }
    }
}

/// The upload phase never starts while a download worker is still running:
/// a measurement leaves the download phase for the upload phase only when
/// the stop signal of the download phase is up and its workers have all
/// been joined.
pub proof fn upload_waits_for_download(measurement: Measurement, now: u64)
    requires
        measurement.phase.wf(),
        measurement.progress.current() == Some(Direction::Download),
        measurement.advanced(now).progress.current() == Some(Direction::Upload),
    ensures
        measurement.turns_to_upload(),
        measurement.phase.stop,
        measurement.phase.outstanding() == 0,
        measurement.advanced(now).phase == PhaseState::starting(now, measurement.initial_workers),
{
}

/// Nothing but the end of the phase under way moves a measurement on, and
/// once it is complete or has failed nothing moves it at all.
pub proof fn progress_follows_phases(measurement: Measurement, now: u64)
    ensures
        measurement.phase.stage != Stage::Done && measurement.phase.stage != Stage::Failed
            ==> measurement.advanced(now) == measurement,
        measurement.progress.current().is_none() ==> measurement.advanced(now) == measurement,
{
}

} // verus!
