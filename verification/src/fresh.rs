//! Freshly generated values: the unique identifiers and the wall-clock
//! instants that subscription records and log correlation are stamped with.
//! Both come from outside sources — a random generator and the system
//! clock — so their contracts state only what holds of every outcome.

use vstd::prelude::*;

verus! {

/// Relies on `uuid::Uuid::new_v4` and its hyphenated `Display` rendering:
/// a version-4 identifier drawn from the operating system's random source,
/// written as 36 characters. Being random, nothing further can be promised
/// of the value; in particular two calls may not be assumed distinct.
#[verifier::external_body]
pub fn fresh_uuid() -> (r: String)
    ensures
        r@.len() == 36,
{
    uuid::Uuid::new_v4().to_string()
}

/// Relies on `chrono::Utc::now`: the current UTC wall-clock instant, as
/// microseconds since the Unix epoch. Nothing is promised of the clock,
/// not even that it moves forward.
#[verifier::external_body]
pub fn now_utc_micros() -> (r: i64) {
    chrono::Utc::now().timestamp_micros()
}

} // verus!
