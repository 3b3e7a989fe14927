//! The HTTP answers this service can give, reduced to what the logic
//! decides: a status code and a body. The transport layer turns a `Reply`
//! into a wire response without changing either field.

use vstd::prelude::*;

verus! {

/// A fully decided HTTP response: status code plus body text.
pub struct Reply {
    pub status: u16,
    pub body: String,
}

impl Reply {
    /// An empty-bodied reply with the given status.
    pub fn empty(status: u16) -> (r: Reply)
        ensures
            r.status == status,
            r.body@.len() == 0,
    {
        Reply { status, body: String::new() }
    }
}

} // verus!
