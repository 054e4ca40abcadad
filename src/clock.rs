//! The wall clock.
use vstd::prelude::*;

verus! {

/// The current time, in unix seconds.
///
/// Relies on `time::OffsetDateTime::now_utc` and `unix_timestamp`; nothing is
/// promised of the value.
#[verifier::external_body]
pub(crate) fn now_unix_timestamp() -> (r: i64) {
    time::OffsetDateTime::now_utc().unix_timestamp()
}

} // verus!
