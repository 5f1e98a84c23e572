//! The greeting that the shell hands to its web view.

use vstd::prelude::*;
use vstd::string::StringExecFns;

verus! {

/// What comes before the name in a greeting.
pub open spec fn salutation() -> Seq<char> {
    "Hello, "@
}

/// What comes after the name in a greeting.
pub open spec fn closing() -> Seq<char> {
    "! You've been greeted from Rust!"@
}

/// The greeting for `name`: the salutation, the name exactly as given, the
/// closing.
pub open spec fn greeting(name: Seq<char>) -> Seq<char> {
    salutation() + name + closing()
}

/// Greets `name`. The name is taken as it is: nothing is trimmed, checked or
/// escaped, and an empty name is greeted like any other.
pub fn greet(name: &str) -> (text: String)
    ensures
        text@ == greeting(name@),
{
    let mut text = String::from_str("Hello, ");
    text.append(name);
    text.append("! You've been greeted from Rust!");
    text
}

} // verus!
