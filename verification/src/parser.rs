//! Parsing of macro attributes into configurations, field analysis,
//! default values and configuration validation.

pub mod attribute_parser;
pub mod default_value;
pub mod field_analyzer;
pub mod validation;
