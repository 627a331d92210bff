//! The greeting endpoint.

use crate::remote::{outcome_view, RemoteError, RemoteErrorView};
use vstd::prelude::*;
use vstd::string::StringExecFns;

verus! {

/// The name under which the greeting endpoint is reachable below `/api/`.
pub const ENDPOINT: &'static str = "hello_world";

/// The text that the greeting endpoint answers with.
pub open spec fn greeting() -> Seq<char> {
    "Hey."@
}

/// The greeting endpoint: takes nothing and answers with the fixed greeting.
/// It has no way to fail.
pub fn hello_world_server() -> (reply: Result<String, RemoteError>)
    ensures
        outcome_view(reply) == Ok::<Seq<char>, RemoteErrorView>(greeting()),
{
    Ok(String::from_str("Hey."))
}

} // verus!
