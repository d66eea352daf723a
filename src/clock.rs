//! Instants at which records are written.
use vstd::prelude::*;

verus! {

/// An instant, in milliseconds since the Unix epoch.
#[derive(Debug, Clone, Copy, PartialEq, Eq, Structural)]
pub struct Timestamp {
    pub millis: i64,
}

/// Relies on bson::DateTime::now: reads the system clock. Nothing is known of
/// the instant it gives.
#[verifier::external_body]
pub(crate) fn now() -> (r: Timestamp) {
    Timestamp { millis: bson::DateTime::now().timestamp_millis() }
}

} // verus!
