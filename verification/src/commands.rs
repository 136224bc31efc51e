//! Commands offered to the frontend.

use vstd::prelude::*;
use vstd::string::StringExecFns;

verus! {

/// The greeting for `name`.
pub open spec fn greeting_of(name: Seq<char>) -> Seq<char> {
    "Hello, "@ + name + "! You've been greeted from Rust!"@
}

/// Greets the caller by name.
pub fn greet(name: &str) -> (greeting: String)
    ensures
        greeting@ == greeting_of(name@),
{
    let mut greeting = String::from_str("Hello, ");
    greeting.append(name);
    greeting.append("! You've been greeted from Rust!");
    greeting
}

} // verus!
