//! What every call to a service carries: the authorization value made of the
//! caller's access token.

use vstd::prelude::*;

verus! {

/// The value of the `authorization` entry for `token`.
pub open spec fn bearer_value(token: Seq<char>) -> Seq<char> {
    "Bearer "@ + token
}

/// Writes the value of the `authorization` entry for `token`.
pub fn bearer(token: &str) -> (value: String)
    ensures
        value@ == bearer_value(token@),
{
    let mut value = "Bearer ".to_owned();
    value.append(token);
    value
}

} // verus!
