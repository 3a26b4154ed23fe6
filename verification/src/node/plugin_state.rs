//! The `#[derive(PState)]` expansion: the struct becomes a state resource.

use vstd::prelude::*;
use vstd::string::*;

verus! {

/// The code emitted for a state struct named `name`.
pub open spec fn spec_plugin_state_impl(name: Seq<char>) -> Seq<char> {
    "impl Resource for "@ + name + " { }"@
}

/// Marks the struct named `name` as a resource (see `spec_plugin_state_impl`).
pub fn plugin_state_impl(name: &str) -> (r: String)
    ensures
        r@ == spec_plugin_state_impl(name@),
{
    let mut s = String::from_str("impl Resource for ");
    s.append(name);
    s.append(" { }");
    s
}

} // verus!
