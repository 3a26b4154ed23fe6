//! Default values.

use vstd::prelude::*;

verus! {

/// Default node content expression.
pub const DEFAULT_NODE_CONTENT: &'static str = "*";

/// Initial capacity of an attribute map.
pub const DEFAULT_ATTRS_CAPACITY: usize = 4;

/// Separator of mark lists.
pub const DEFAULT_MARKS_SEPARATOR: &'static str = ",";

} // verus!
