//! The wall clock, read in whole seconds.

use vstd::prelude::*;

verus! {

/// `std::time::SystemTime`: a reading of the clock, carried through as an
/// opaque value.
#[verifier::external_type_specification]
#[verifier::external_body]
pub struct ExSystemTime(std::time::SystemTime);

/// `std::time::SystemTimeError`: what `duration_since` returns for a reading
/// that lies before the instant it is compared with. Opaque as well.
#[verifier::external_type_specification]
#[verifier::external_body]
pub struct ExSystemTimeError(std::time::SystemTimeError);

/// Calls `std::time::SystemTime::now`. The reading depends on the moment of
/// the call, so nothing is claimed of it.
#[verifier::external_body]
fn read_clock() -> (reading: std::time::SystemTime) {
    std::time::SystemTime::now()
}

/// Calls `std::time::SystemTime::duration_since` with the Unix epoch as the
/// earlier instant. Nothing is claimed of the result: it is an error when
/// the reading lies before the epoch, which only the clock decides.
#[verifier::external_body]
fn since_epoch(reading: &std::time::SystemTime) -> (elapsed: Result<
    std::time::Duration,
    std::time::SystemTimeError,
>) {
    reading.duration_since(std::time::UNIX_EPOCH)
}

/// Calls `std::time::Duration::as_secs`: the whole seconds of a duration.
/// A duration is opaque here, so nothing is claimed of the number.
#[verifier::external_body]
fn whole_seconds(elapsed: &std::time::Duration) -> (secs: u64) {
    elapsed.as_secs()
}

/// The current time in whole seconds since the Unix epoch, or `None` when
/// the clock is set to a moment before the epoch.
///
/// What comes back is whatever the clock says; the deadline arithmetic that
/// consumes it is proved for every value.
pub fn get_secs_since_unix_epoch() -> (secs: Option<u64>) {
    let reading = read_clock();
    match since_epoch(&reading) {
        Ok(elapsed) => Some(whole_seconds(&elapsed)),
        Err(_) => None,
    }
}

} // verus!
