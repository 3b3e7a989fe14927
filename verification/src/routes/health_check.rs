//! The liveness probe.

use vstd::prelude::*;

use crate::response::Reply;

verus! {

/// Always answers 200 with an empty body: no extraction, no side effects,
/// regardless of anything else in flight.
pub fn health_check() -> (r: Reply)
    ensures
        r.status == 200,
        r.body@.len() == 0,
{
    Reply::empty(200)
}

} // verus!
