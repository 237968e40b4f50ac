//! The wall clock, read through the document library's own date type so that
//! timestamps written here agree with those the store writes.

use mongodb::bson::DateTime;
use vstd::prelude::*;

verus! {

/// Calls `DateTime::now` and `DateTime::timestamp_millis`: the current time in
/// milliseconds since the Unix epoch. Nothing is claimed of the value, which
/// changes from call to call.
#[verifier::external_body]
pub(crate) fn now_millis() -> (now: i64) {
    DateTime::now().timestamp_millis()
}

} // verus!
