//! Attributes each derive macro accepts but does not require.

use vstd::prelude::*;

verus! {

/// Optional attributes of `#[derive(Node)]`.
pub const NODE_OPTIONAL: [&'static str; 2] = [
    "marks",
    "content",
];

/// Optional attributes of `#[derive(Mark)]` (none yet).
pub const MARK_OPTIONAL: [&'static str; 0] = [
];

/// Field-level attributes.
pub const FIELD_ATTRIBUTES: [&'static str; 1] = [
    "attr",
];

} // verus!
