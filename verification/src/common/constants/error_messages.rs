//! Error message templates.

use vstd::prelude::*;

verus! {

/// Missing required attribute.
pub const MISSING_ATTRIBUTE_TEMPLATE: &'static str = "缺少必需的宏属性: {attribute}";

/// Invalid attribute value.
pub const INVALID_ATTRIBUTE_VALUE_TEMPLATE: &'static str = "无效的属性值 '{value}' 用于属性 '{attribute}': {reason}";

/// Unsupported field type.
pub const UNSUPPORTED_FIELD_TYPE_TEMPLATE: &'static str = "不支持的字段类型 '{field_type}' 在字段 '{field_name}' 中";

/// Attribute parse error.
pub const PARSE_ERROR_TEMPLATE: &'static str = "属性解析错误: {message}";

/// Code generation error.
pub const GENERATION_ERROR_TEMPLATE: &'static str = "代码生成错误: {message}";

/// Validation error.
pub const VALIDATION_ERROR_TEMPLATE: &'static str = "验证错误: {message}";

} // verus!
