//! Errors, constants and type utilities shared by the parsers and generators.

pub mod constants;
pub mod error;
pub mod utils;
