//! The fixed greeting a host shows to confirm the kernel is loaded.

use vstd::prelude::*;
use vstd::string::StringExecFns;

verus! {

/// The kernel's greeting to its host.
pub fn greet() -> (r: String)
    ensures
        r@ == "Howdy, from wasm!"@,
{
    String::from_str("Howdy, from wasm!")
}

} // verus!
