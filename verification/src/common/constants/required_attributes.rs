//! Attributes each derive macro requires.

use vstd::prelude::*;

verus! {

/// Attributes `#[derive(Node)]` requires.
pub const NODE_REQUIRED: [&'static str; 1] = [
    "node_type",
];

/// Attributes `#[derive(Mark)]` requires.
pub const MARK_REQUIRED: [&'static str; 1] = [
    "mark_type",
];

} // verus!
