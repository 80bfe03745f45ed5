//! What can go wrong during a measurement.

use vstd::prelude::*;

verus! {

/// The failures a phase distinguishes.
#[derive(Clone, Copy, Debug, PartialEq, Eq, Structural)]
pub enum TransferError {
    /// A session lost its connection, timed out or was refused by the
    /// remote. The worker that met it ends; the phase goes on without it.
    TransientTransferFailure,
    /// An established download session delivered nothing on its very first
    /// read: the remote is misbehaving, not merely slow.
    ProtocolViolation,
    /// A worker ended without returning, so the aggregate of the phase can
    /// no longer be trusted.
    JoinFailure,
}

/// Whether an HTTP status answers a transfer request with success.
pub open spec fn is_success(status: u16) -> bool {
    200 <= status < 300
}

/// Judges the status of the response that opens a session: anything but a
/// status in the 200s is a transient failure of that session.
pub fn check_status(status: u16) -> (outcome: Result<(), TransferError>)
    ensures
        outcome == if is_success(status) {
            Ok::<(), TransferError>(())
        } else {
            Err::<(), TransferError>(TransferError::TransientTransferFailure)
        },
{
    if 200 <= status && status < 300 {
        Ok(())
    } else {
        Err(TransferError::TransientTransferFailure)
    }
}

} // verus!
