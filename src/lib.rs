use vstd::prelude::*;
use vstd::string::*;

verus! {

/// The text that `greet` puts before the name.
pub open spec fn greeting_prefix() -> Seq<char> {
    "Hello from Rust, "@
}

/// The text that `greet` puts after the name.
pub open spec fn greeting_suffix() -> Seq<char> {
    "!"@
}

/// The greeting for `name`: the prefix, the name, then the suffix.
pub open spec fn greeting(name: Seq<char>) -> Seq<char> {
    greeting_prefix() + name + greeting_suffix()
}

/// Returns a greeting addressed to `name`.
pub fn greet(name: &str) -> (r: String)
    ensures
        r@ == greeting(name@),
{
    let mut r = String::from_str("Hello from Rust, ");
    r.append(name);
    r.append("!");
    r
}

} // verus!
