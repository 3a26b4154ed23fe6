//! Validation limits.

use vstd::prelude::*;

verus! {

/// Minimum identifier length.
pub const MIN_IDENTIFIER_LENGTH: usize = 1;

/// Maximum identifier length.
pub const MAX_IDENTIFIER_LENGTH: usize = 64;

/// Maximum attribute value length.
pub const MAX_ATTRIBUTE_VALUE_LENGTH: usize = 256;

/// Maximum number of marks.
pub const MAX_MARKS_COUNT: usize = 10;

/// Maximum number of attribute fields.
pub const MAX_FIELD_ATTRIBUTES: usize = 20;

} // verus!
