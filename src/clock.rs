use vstd::prelude::*;

verus! {

/// A point in time, in microseconds from the Unix epoch.
#[derive(Clone, Copy, Debug, PartialEq, Eq, Structural)]
pub struct Timestamp {
    pub micros: i64,
}

/// Relies on chrono::Local::now: the local wall-clock time, taken as a naive
/// date-time. Nothing is promised of the value read.
#[verifier::external_body]
pub(crate) fn local_now() -> (r: Timestamp) {
    Timestamp { micros: chrono::Local::now().naive_local().and_utc().timestamp_micros() }
}

} // verus!
