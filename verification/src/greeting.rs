//! The one front-end command the shell exposes: a pure greeting.

use vstd::prelude::*;
use vstd::string::StringExecFns;

verus! {

/// The sentence produced for a given name: a fixed prefix, the name itself
/// unchanged, and a fixed suffix.
pub open spec fn greeting_of(name: Seq<char>) -> Seq<char> {
    "Hello, "@ + name + "! You've been greeted from Rust!"@
}

/// Builds the greeting for `name`.
///
/// Total over every string, the empty one and strings with control characters
/// included: the result is exactly the concatenation of the prefix, `name`
/// with no trimming or escaping, and the suffix.
pub fn greet(name: &str) -> (r: String)
    ensures
        r@ == greeting_of(name@),
{
    let mut out: String = "Hello, ".to_owned();
    out.append(name);
    out.append("! You've been greeted from Rust!");
    out
}

} // verus!
