//! Performance tuning.

use vstd::prelude::*;

verus! {

/// Type analysis cache size.
pub const TYPE_ANALYSIS_CACHE_SIZE: usize = 100;

/// Code generation cache size.
pub const CODEGEN_CACHE_SIZE: usize = 50;

/// Batch processing threshold.
pub const BATCH_PROCESS_THRESHOLD: usize = 5;

} // verus!
