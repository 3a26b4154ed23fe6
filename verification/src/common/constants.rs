//! Constants of the macro system: supported types, attribute names, message
//! templates, code-generation names and validation limits.

use vstd::prelude::*;

pub mod codegen;
pub mod defaults;
pub mod documentation;
pub mod error_messages;
pub mod optional_attributes;
pub mod performance;
pub mod required_attributes;
pub mod suggestion_templates;
pub mod validation;

verus! {

/// The basic data types the macro system supports.
pub const SUPPORTED_BASIC_TYPES: [&'static str; 18] = [
    "String",
    "str",
    "&str",
    "i8",
    "i16",
    "i32",
    "i64",
    "i128",
    "isize",
    "u8",
    "u16",
    "u32",
    "u64",
    "u128",
    "usize",
    "f32",
    "f64",
    "bool",
];

/// Common node type names, as examples.
pub const COMMON_NODE_TYPES: [&'static str; 13] = [
    "paragraph",
    "heading",
    "text",
    "image",
    "link",
    "list",
    "list_item",
    "table",
    "table_row",
    "table_cell",
    "code_block",
    "blockquote",
    "horizontal_rule",
];

/// Common mark type names, as examples.
pub const COMMON_MARK_TYPES: [&'static str; 10] = [
    "bold",
    "italic",
    "underline",
    "strikethrough",
    "code",
    "link",
    "color",
    "background",
    "font_size",
    "font_family",
];

} // verus!
