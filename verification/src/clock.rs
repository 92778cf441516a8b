//! Readings of the system clock and minting of fresh message identifiers.
//!
//! Every value produced here depends on the moment of the call (or on a
//! random source), so nothing useful can be promised about it; the verified
//! protocol logic therefore takes these readings as plain arguments and is
//! proved for every value they could have.

use std::time::{SystemTime, UNIX_EPOCH};
use vstd::prelude::*;

verus! {

/// Relies on std::time::SystemTime::now: seconds elapsed since the Unix
/// epoch, or 0 if the clock reads earlier than the epoch.
#[verifier::external_body]
pub fn current_timestamp() -> u64 {
    SystemTime::now()
        .duration_since(UNIX_EPOCH)
        .map(|d| d.as_secs())
        .unwrap_or(0)
}

/// Relies on std::time::SystemTime::now: milliseconds elapsed since the Unix
/// epoch, or 0 if the clock reads earlier than the epoch.
#[verifier::external_body]
pub fn current_timestamp_ms() -> i64 {
    SystemTime::now()
        .duration_since(UNIX_EPOCH)
        .map(|d| d.as_millis() as i64)
        .unwrap_or(0)
}

/// Relies on uuid::Uuid::new_v4: a fresh random version-4 identifier,
/// returned as its 128-bit value.
#[verifier::external_body]
pub fn fresh_message_id() -> u128 {
    uuid::Uuid::new_v4().as_u128()
}

} // verus!
