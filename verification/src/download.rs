//! One download session, read by read, and what a worker does between
//! sessions.

use vstd::prelude::*;
use crate::chunk::{chunk_size, chunk_size_for};
use crate::counter::{capped, ByteCounter};
use crate::error::TransferError;

verus! {

/// What a download worker does next within a session.
#[derive(Clone, Copy, Debug, PartialEq, Eq, Structural)]
pub enum ReadPlan {
    /// The stop signal is up: abandon the rest of the session.
    Stop,
    /// Read once more, at most `max_bytes` bytes.
    Read { max_bytes: u64 },
}

/// What a read that succeeded means for the session.
#[derive(Clone, Copy, Debug, PartialEq, Eq, Structural)]
pub enum ReadOutcome {
    /// The read delivered `bytes` bytes, which have been counted.
    Counted { bytes: u64 },
    /// The stream has ended: the quota of the session is used up.
    Exhausted,
}

/// What a worker does once a session is over.
#[derive(Clone, Copy, Debug, PartialEq, Eq, Structural)]
pub enum WorkerNext {
    /// Start the next session.
    StartSession,
    /// Return, so that the controller can join the worker.
    Exit,
}

/// The plan before a read, given the stop signal and the rate estimate.
pub open spec fn plan_for(stop: bool, current_rate: u64) -> ReadPlan {
    if stop {
        ReadPlan::Stop
    } else {
        ReadPlan::Read { max_bytes: chunk_size(current_rate) }
    }
}

/// What a read of `bytes` bytes means for a session that has received
/// `received` bytes before it. Only a session that has received nothing can
/// violate the protocol, by delivering nothing.
pub open spec fn outcome_of(received: nat, bytes: u64) -> Result<ReadOutcome, TransferError> {
    if bytes > 0 {
        Ok(ReadOutcome::Counted { bytes })
    } else if received == 0 {
        Err(TransferError::ProtocolViolation)
    } else {
        Ok(ReadOutcome::Exhausted)
    }
}

/// Bytes a session has received after the reads `reads`, in order.
pub open spec fn received_after(reads: Seq<u64>) -> nat
    decreases reads.len(),
{
    if reads.len() == 0 {
        0
    } else {
        capped(received_after(reads.drop_last()) + reads.last() as nat)
    }
}

/// The next step of a worker whose session ended with `outcome`: it goes on
/// to a new session unless the session failed or the stop signal is up.
pub open spec fn next_after(outcome: Result<(), TransferError>, stop: bool) -> WorkerNext {
    if outcome.is_err() || stop {
        WorkerNext::Exit
    } else {
        WorkerNext::StartSession
    }
}

/// One download session: a request for a quota of bytes whose response is
/// read in chunks.
pub struct DownloadSession {
    received: u64,
}

impl View for DownloadSession {
    type V = nat;

    /// Bytes received so far.
    closed spec fn view(&self) -> nat {
        self.received as nat
    }
}

impl DownloadSession {
    /// A session that has received nothing yet.
    pub fn new() -> (session: DownloadSession)
        ensures
            session@ == 0,
    {
        DownloadSession { received: 0 }
    }

    /// Bytes received so far.
    pub fn received(&self) -> (received: u64)
        ensures
            received == self@,
    {
        self.received
    }

    /// Takes note of a read that returned `bytes` bytes and adds them to the
    /// byte counter of the phase.
    ///
    /// A read of zero bytes ends the session: as a protocol violation if it
    /// is the first thing the session ever read, as the normal end of the
    /// stream otherwise.
    pub fn on_read(&mut self, bytes: u64, counter: &mut ByteCounter) -> (outcome: Result<
        ReadOutcome,
        TransferError,
    >)
        ensures
            outcome == outcome_of(old(self)@, bytes),
            final(self)@ == capped(old(self)@ + bytes as nat),
            final(counter)@ == capped(old(counter)@ + bytes as nat),
            final(counter)@ >= old(counter)@,
    {
        proof {
            counter.reading_fits();
        }
        if bytes == 0 {
            if self.received == 0 {
                return Err(TransferError::ProtocolViolation);
            }
            return Ok(ReadOutcome::Exhausted);
        }
        self.received = self.received.saturating_add(bytes);
        counter.add(bytes);
        Ok(ReadOutcome::Counted { bytes })
    }
}

/// Decides, before each read of a session, whether to go on and how much to
/// ask for.
pub fn plan_read(stop: bool, current_rate: u64) -> (plan: ReadPlan)
    ensures
        plan == plan_for(stop, current_rate),
{
    if stop {
        ReadPlan::Stop
    } else {
        ReadPlan::Read { max_bytes: chunk_size_for(current_rate) }
    }
}

/// Decides what a worker does once a session is over.
pub fn after_session(outcome: Result<(), TransferError>, stop: bool) -> (next: WorkerNext)
    ensures
        next == next_after(outcome, stop),
{
    if outcome.is_err() || stop {
        WorkerNext::Exit
    } else {
        WorkerNext::StartSession
    }
}

/// Only the first read of a session can violate the protocol: in a session
/// whose earlier reads all delivered something, a read is a violation if
/// and only if it is the first one and delivers nothing.
pub proof fn only_an_empty_first_read_violates(reads: Seq<u64>, bytes: u64)
    requires
        forall|i: int| 0 <= i < reads.len() ==> reads[i] > 0,
    ensures
        outcome_of(received_after(reads), bytes) == Err::<ReadOutcome, TransferError>(
            TransferError::ProtocolViolation,
        ) <==> reads.len() == 0 && bytes == 0,
        reads.len() > 0 ==> received_after(reads) > 0,
    decreases reads.len(),
{
    if reads.len() > 0 {
        only_an_empty_first_read_violates(reads.drop_last(), reads.last());
    }
}

} // verus!
