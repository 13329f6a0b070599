//! The one clock access the domain makes: the current time as a Unix
//! timestamp in milliseconds. Nothing is assumed of the value; everything
//! built on it holds whatever instant came back.

use vstd::prelude::*;

verus! {

/// Relies on chrono::Utc::now / timestamp_millis for the current time;
/// the result depends on the clock, so nothing is promised of it.
#[verifier::external_body]
pub(crate) fn now_millis() -> i64 {
    chrono::Utc::now().timestamp_millis()
}

} // verus!
