//! The server clock, behind a trusted wrapper.

use vstd::prelude::*;

verus! {

/// Relies on chrono's `Utc::now` (and `DateTime::timestamp_micros`): the
/// current UTC time, in microseconds since the Unix epoch. Nothing is assumed
/// of the value.
#[verifier::external_body]
pub(crate) fn ahora_micros() -> i64 {
    chrono::Utc::now().timestamp_micros()
}

} // verus!
