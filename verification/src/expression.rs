//! Parts of the expression language: function signatures and their
//! parameter counts, the closure functions over arrays, and parser results.

pub mod functions;
pub mod parser;
