//! The one command the shell exposes to its frontend: a fixed-format
//! greeting built around a caller-supplied name.

use vstd::prelude::*;
use vstd::string::StringExecFns;

verus! {

/// The greeting owed for `name`: a fixed prefix, the name, a fixed suffix.
pub open spec fn spec_greeting(name: Seq<char>) -> Seq<char> {
    "Hello, "@ + name + "! You've been greeted from Rust!"@
}

/// Builds the greeting for `name`.
pub fn greet(name: &str) -> (r: String)
    ensures
        r@ == spec_greeting(name@),
{
    let mut r = String::from_str("Hello, ");
    r.append(name);
    r.append("! You've been greeted from Rust!");
    r
}

} // verus!
