//! Wall-clock access for timestamps and deadline arithmetic.

use vstd::prelude::*;

verus! {

/// Relies on chrono::Local::now: the current wall-clock time, read as
/// milliseconds since the Unix epoch.  Nothing is assumed of the value:
/// callers must cope with any reading.
#[verifier::external_body]
pub fn now_millis() -> (r: i64) {
    chrono::Local::now().timestamp_millis()
}

} // verus!
