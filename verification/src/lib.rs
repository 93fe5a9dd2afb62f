//! Core of a sensor gateway: whitelist-based device authentication with
//! identity anonymization, handler decision logic for the HTTP surface, and
//! the single shared publishing-channel state.

use vstd::prelude::*;

pub mod channel_state;
pub mod device_auth;
pub mod handlers;
pub mod types;

verus! {

/// Relies on `std::time::SystemTime::now`; the result depends on the clock at
/// the moment of the call, so nothing is stated of it. A clock that reads
/// before the Unix epoch is absorbed as 0 rather than panicking.
#[verifier::external_body]
fn clock_unix_seconds() -> u64 {
    match std::time::SystemTime::now().duration_since(std::time::UNIX_EPOCH) {
        Ok(elapsed) => elapsed.as_secs(),
        Err(_) => 0,
    }
}

/// The gateway's receipt time: whole seconds since the Unix epoch, read from
/// the server-trusted clock. Handlers stamp forwarded readings with it, never
/// with a device-supplied time.
pub fn timestamp_in_sec() -> u64 {
    clock_unix_seconds()
}

} // verus!
