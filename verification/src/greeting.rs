//! The one remotely callable function the shell registers: a fixed greeting
//! built around the caller's name.

use vstd::prelude::*;
use vstd::string::StringExecFns;

verus! {

/// The exact characters of the greeting for `name`: the fixed prefix, the
/// name itself, and the fixed suffix, in that order.
pub open spec fn spec_greeting(name: Seq<char>) -> Seq<char> {
    "Hello, "@ + name + "! You've been greeted from Rust!"@
}

/// Builds the greeting for `name`.
pub fn greet(name: &str) -> (r: String)
    ensures
        r@ == spec_greeting(name@),
{
    let mut r = String::from_str("Hello, ");
    r.append(name);
    r.append("! You've been greeted from Rust!");
    r
}

} // verus!
