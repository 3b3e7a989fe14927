//! The greeting route.

use vstd::prelude::*;
use vstd::string::StringExecFns;

use crate::response::Reply;

verus! {

/// Answers 200 with `Hello {name}`, falling back to the literal `World`
/// when the path carried no name. Pure: no persistence is touched.
pub fn greet(name: Option<&str>) -> (r: Reply)
    ensures
        r.status == 200,
        name matches Some(n) ==> r.body@ == "Hello "@ + n@,
        name is None ==> r.body@ == "Hello World"@,
{
    let mut body = String::from_str("Hello ");
    match name {
        Some(n) => body.append(n),
        None => {
            body.append("World");
            proof {
                reveal_strlit("Hello ");
                reveal_strlit("World");
                reveal_strlit("Hello World");
                assert(body@ =~= "Hello World"@);
            }
        },
    }
    Reply { status: 200, body }
}

} // verus!
