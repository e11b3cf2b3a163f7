//! The one synchronous command the frontend can invoke.

use vstd::prelude::*;

verus! {

/// The greeting produced for a name: a fixed prefix, the name unchanged, and
/// a fixed suffix. Every name is accepted, the empty one included.
pub open spec fn greeting_of(name: Seq<char>) -> Seq<char> {
    "Hello, "@ + name + "! You've been greeted from Rust!"@
}

/// Answers a `greet` request. Pure interpolation: no validation, no error
/// path, no side effects beyond the returned string.
pub fn greet(name: &str) -> (r: String)
    ensures
        r@ == greeting_of(name@),
{
    let mut r = String::from_str("Hello, ");
    r.append(name);
    r.append("! You've been greeted from Rust!");
    r
}

} // verus!
