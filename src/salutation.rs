//! A greeting addressed to a name.

use vstd::prelude::*;
use vstd::string::StringExecFns;

verus! {

/// `Hello, ` followed by `name` and `!`.
pub fn greet(name: &str) -> (r: String)
    ensures
        r@ == "Hello, "@ + name@ + "!"@,
{
    let mut s = String::from_str("Hello, ");
    s.append(name);
    s.append("!");
    s
}

} // verus!
