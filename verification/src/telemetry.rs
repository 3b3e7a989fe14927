//! The decisions behind the structured-logging setup. Building the actual
//! layered subscriber and installing it process-wide belong to the shell
//! around this crate; what is decided here is which filter specification
//! the sink runs with.

use vstd::prelude::*;
use vstd::string::StringExecFns;

verus! {

/// The effective event-filter specification: the value the filtering
/// environment variable carried when it was set, and the caller's fallback
/// otherwise. No other source is consulted and nothing is substituted
/// silently.
pub fn resolve_filter(env_value: Option<String>, fallback: &str) -> (r: String)
    ensures
        env_value matches Some(v) ==> r@ == v@,
        env_value is None ==> r@ == fallback@,
{
    match env_value {
        Some(v) => v,
        None => String::from_str(fallback),
    }
}

} // verus!
