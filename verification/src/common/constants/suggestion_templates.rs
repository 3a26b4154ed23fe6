//! Repair suggestion templates.

use vstd::prelude::*;

verus! {

/// For a missing `node_type`.
pub const MISSING_NODE_TYPE_SUGGESTION: &'static str = "请在结构体上添加 #[node_type = \"类型名\"] 属性，例如: #[node_type = \"paragraph\"]";

/// For a missing `mark_type`.
pub const MISSING_MARK_TYPE_SUGGESTION: &'static str = "请在结构体上添加 #[mark_type = \"类型名\"] 属性，例如: #[mark_type = \"bold\"]";

/// For an invalid attribute value.
pub const INVALID_ATTRIBUTE_VALUE_SUGGESTION: &'static str = "请检查属性值格式是否正确，确保使用双引号包围字符串值";

/// For an unsupported field type.
pub const UNSUPPORTED_FIELD_TYPE_SUGGESTION: &'static str = "请使用支持的基本类型：String, i32, i64, f32, f64, bool 或其 Option 包装版本";

/// General advice.
pub const GENERAL_SUGGESTION: &'static str = "请检查宏的使用方式是否符合文档要求";

} // verus!
