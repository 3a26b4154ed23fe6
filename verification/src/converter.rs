//! Converters that turn field values into JSON values in generated code, and
//! the registry that picks one by priority.

pub mod builtin_converters;
pub mod converter_registry;
pub mod type_converter;
pub mod utils;
