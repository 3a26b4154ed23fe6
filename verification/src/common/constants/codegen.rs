//! Names used in generated code.

use vstd::prelude::*;

verus! {

/// The generated Node conversion method.
pub const NODE_CONVERTER_METHOD: &'static str = "to_node";

/// The generated Mark conversion method.
pub const MARK_CONVERTER_METHOD: &'static str = "to_mark";

/// The Node instance variable.
pub const NODE_INSTANCE_VAR: &'static str = "node";

/// The Mark instance variable.
pub const MARK_INSTANCE_VAR: &'static str = "mark";

/// The NodeSpec variable.
pub const NODE_SPEC_VAR: &'static str = "node_spec";

/// The MarkSpec variable.
pub const MARK_SPEC_VAR: &'static str = "mark_spec";

/// The attribute map variable.
pub const ATTRS_MAP_VAR: &'static str = "attrs";

} // verus!
