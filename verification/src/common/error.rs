//! The error type of the derive macros, its messages and repair suggestions.

use vstd::prelude::*;
use vstd::string::*;
use crate::syntax::SpanRef;
use crate::generator::tokens::{spec_string_literal, string_literal};
use crate::text::{concat, concat3, concat5, str_eq};

verus! {

/// An error met while parsing, validating or generating.
#[derive(Debug)]
pub enum MacroError {
    /// A required macro attribute (such as `node_type`) is missing.
    MissingAttribute { attribute: String, span: Option<SpanRef> },
    /// A macro attribute has a value of the wrong form.
    InvalidAttributeValue { attribute: String, value: String, reason: String, span: Option<SpanRef> },
    /// A field's type cannot be turned into a JSON value.
    UnsupportedFieldType { field_name: String, field_type: String, span: Option<SpanRef> },
    /// The attribute syntax could not be read.
    ParseError { message: String, span: Option<SpanRef> },
    /// Code generation failed.
    GenerationError { message: String, span: Option<SpanRef> },
    /// A configuration is invalid.
    ValidationError { message: String, span: Option<SpanRef> },
    /// The underlying syntax parser failed, with its message.
    SyntaxError { message: String, span: Option<SpanRef> },
}

/// The view of a `MacroError`.
pub ghost enum MacroErrorV {
    MissingAttribute { attribute: Seq<char>, span: Option<SpanRef> },
    InvalidAttributeValue {
        attribute: Seq<char>,
        value: Seq<char>,
        reason: Seq<char>,
        span: Option<SpanRef>,
    },
    UnsupportedFieldType { field_name: Seq<char>, field_type: Seq<char>, span: Option<SpanRef> },
    ParseError { message: Seq<char>, span: Option<SpanRef> },
    GenerationError { message: Seq<char>, span: Option<SpanRef> },
    ValidationError { message: Seq<char>, span: Option<SpanRef> },
    SyntaxError { message: Seq<char>, span: Option<SpanRef> },
}

impl View for MacroError {
    type V = MacroErrorV;

    open spec fn view(&self) -> MacroErrorV {
        match self {
            MacroError::MissingAttribute { attribute, span } => MacroErrorV::MissingAttribute {
                attribute: attribute@,
                span: *span,
            },
            MacroError::InvalidAttributeValue { attribute, value, reason, span } =>
                MacroErrorV::InvalidAttributeValue {
                attribute: attribute@,
                value: value@,
                reason: reason@,
                span: *span,
            },
            MacroError::UnsupportedFieldType { field_name, field_type, span } =>
                MacroErrorV::UnsupportedFieldType {
                field_name: field_name@,
                field_type: field_type@,
                span: *span,
            },
            MacroError::ParseError { message, span } => MacroErrorV::ParseError {
                message: message@,
                span: *span,
            },
            MacroError::GenerationError { message, span } => MacroErrorV::GenerationError {
                message: message@,
                span: *span,
            },
            MacroError::ValidationError { message, span } => MacroErrorV::ValidationError {
                message: message@,
                span: *span,
            },
            MacroError::SyntaxError { message, span } => MacroErrorV::SyntaxError {
                message: message@,
                span: *span,
            },
        }
    }
}

/// The result type of the macro's processing steps.
pub type MacroResult<T> = Result<T, MacroError>;

/// The view of a unit result.
pub open spec fn unit_result_view(r: MacroResult<()>) -> Result<(), MacroErrorV> {
    match r {
        Ok(()) => Ok(()),
        Err(e) => Err(e@),
    }
}

/// The display text of an error.
pub open spec fn spec_error_text(e: MacroErrorV) -> Seq<char> {
    match e {
        MacroErrorV::MissingAttribute { attribute, .. } => "缺少必需的宏属性: "@ + attribute,
        MacroErrorV::InvalidAttributeValue { attribute, value, reason, .. } => "无效的属性值 '"@
            + value + "' 用于属性 '"@ + attribute + "': "@ + reason,
        MacroErrorV::UnsupportedFieldType { field_name, field_type, .. } => "不支持的字段类型 '"@
            + field_type + "' 在字段 '"@ + field_name + "' 中"@,
        MacroErrorV::ParseError { message, .. } => "属性解析错误: "@ + message,
        MacroErrorV::GenerationError { message, .. } => "代码生成错误: "@ + message,
        MacroErrorV::ValidationError { message, .. } => "验证错误: "@ + message,
        MacroErrorV::SyntaxError { message, .. } => "语法错误: "@ + message,
    }
}

/// The repair suggestion for an error.
pub open spec fn spec_suggestion(e: MacroErrorV) -> Seq<char> {
    match e {
        MacroErrorV::MissingAttribute { attribute, .. } => if attribute == "node_type"@ {
            "请在结构体上添加 #[node_type = \"类型名\"] 属性，例如: #[node_type = \"paragraph\"]"@
        } else if attribute == "mark_type"@ {
            "请在结构体上添加 #[mark_type = \"类型名\"] 属性，例如: #[mark_type = \"bold\"]"@
        } else {
            "请在结构体上添加 #["@ + attribute + " = \"值\"] 属性"@
        },
        MacroErrorV::InvalidAttributeValue { attribute, .. } => "请检查 #"@ + attribute
            + " 属性的值格式是否正确"@,
        MacroErrorV::UnsupportedFieldType { field_name, field_type, .. } => "字段 '"@ + field_name
            + "' 的类型 '"@ + field_type
            + "' 不受支持，请使用支持的基本类型：String, i32, i64, f32, f64, bool 或其 Option 包装版本"@,
        _ => "请检查宏的使用方式是否符合文档要求"@,
    }
}

/// The location of an error.
pub open spec fn spec_error_span(e: MacroErrorV) -> Option<SpanRef> {
    match e {
        MacroErrorV::MissingAttribute { span, .. } => span,
        MacroErrorV::InvalidAttributeValue { span, .. } => span,
        MacroErrorV::UnsupportedFieldType { span, .. } => span,
        MacroErrorV::ParseError { span, .. } => span,
        MacroErrorV::GenerationError { span, .. } => span,
        MacroErrorV::ValidationError { span, .. } => span,
        MacroErrorV::SyntaxError { span, .. } => span,
    }
}

impl MacroError {
    /// The error's message, as its `Display` writes it.
    pub fn to_string(&self) -> (r: String)
        ensures
            r@ == spec_error_text(self@),
    {
        match self {
            MacroError::MissingAttribute { attribute, .. } => concat(
                "缺少必需的宏属性: ",
                attribute.as_str(),
            ),
            MacroError::InvalidAttributeValue { attribute, value, reason, .. } => {
                let mut s = String::from_str("无效的属性值 '");
                s.append(value.as_str());
                s.append("' 用于属性 '");
                s.append(attribute.as_str());
                s.append("': ");
                s.append(reason.as_str());
                s
            },
            MacroError::UnsupportedFieldType { field_name, field_type, .. } => concat5(
                "不支持的字段类型 '",
                field_type.as_str(),
                "' 在字段 '",
                field_name.as_str(),
                "' 中",
            ),
            MacroError::ParseError { message, .. } => concat("属性解析错误: ", message.as_str()),
            MacroError::GenerationError { message, .. } => concat("代码生成错误: ", message.as_str()),
            MacroError::ValidationError { message, .. } => concat("验证错误: ", message.as_str()),
            MacroError::SyntaxError { message, .. } => concat("语法错误: ", message.as_str()),
        }
    }

    /// Where the error points, if anywhere.
    pub fn get_span(&self) -> (r: Option<SpanRef>)
        ensures
            r == spec_error_span(self@),
    {
        match self {
            MacroError::MissingAttribute { span, .. } => *span,
            MacroError::InvalidAttributeValue { span, .. } => *span,
            MacroError::UnsupportedFieldType { span, .. } => *span,
            MacroError::ParseError { span, .. } => *span,
            MacroError::GenerationError { span, .. } => *span,
            MacroError::ValidationError { span, .. } => *span,
            MacroError::SyntaxError { span, .. } => *span,
        }
    }

    /// A missing-attribute error at `span`.
    pub fn missing_attribute(attribute: &str, span: SpanRef) -> (r: Self)
        ensures
            r@ == (MacroErrorV::MissingAttribute { attribute: attribute@, span: Some(span) }),
    {
        MacroError::MissingAttribute { attribute: String::from_str(attribute), span: Some(span) }
    }

    /// An invalid-attribute-value error at `span`.
    pub fn invalid_attribute_value(attribute: &str, value: &str, reason: &str, span: SpanRef) -> (r:
        Self)
        ensures
            r@ == (MacroErrorV::InvalidAttributeValue {
                attribute: attribute@,
                value: value@,
                reason: reason@,
                span: Some(span),
            }),
    {
        MacroError::InvalidAttributeValue {
            attribute: String::from_str(attribute),
            value: String::from_str(value),
            reason: String::from_str(reason),
            span: Some(span),
        }
    }

    /// An unsupported-field-type error at `span`.
    pub fn unsupported_field_type(field_name: &str, field_type: &str, span: SpanRef) -> (r: Self)
        ensures
            r@ == (MacroErrorV::UnsupportedFieldType {
                field_name: field_name@,
                field_type: field_type@,
                span: Some(span),
            }),
    {
        MacroError::UnsupportedFieldType {
            field_name: String::from_str(field_name),
            field_type: String::from_str(field_type),
            span: Some(span),
        }
    }

    /// A parse error at `span`.
    pub fn parse_error(message: &str, span: SpanRef) -> (r: Self)
        ensures
            r@ == (MacroErrorV::ParseError { message: message@, span: Some(span) }),
    {
        MacroError::ParseError { message: String::from_str(message), span: Some(span) }
    }

    /// A validation error at `span`.
    pub fn validation_error(message: &str, span: SpanRef) -> (r: Self)
        ensures
            r@ == (MacroErrorV::ValidationError { message: message@, span: Some(span) }),
    {
        MacroError::ValidationError { message: String::from_str(message), span: Some(span) }
    }

    /// A generation error at `span`.
    pub fn generation_error(message: &str, span: SpanRef) -> (r: Self)
        ensures
            r@ == (MacroErrorV::GenerationError { message: message@, span: Some(span) }),
    {
        MacroError::GenerationError { message: String::from_str(message), span: Some(span) }
    }

    /// A suggestion on how to repair the error.
    pub fn suggestion(&self) -> (r: String)
        ensures
            r@ == spec_suggestion(self@),
    {
        match self {
            MacroError::MissingAttribute { attribute, .. } => {
                if str_eq(attribute.as_str(), "node_type") {
                    String::from_str(
                        "请在结构体上添加 #[node_type = \"类型名\"] 属性，例如: #[node_type = \"paragraph\"]",
                    )
                } else if str_eq(attribute.as_str(), "mark_type") {
                    String::from_str(
                        "请在结构体上添加 #[mark_type = \"类型名\"] 属性，例如: #[mark_type = \"bold\"]",
                    )
                } else {
                    concat3("请在结构体上添加 #[", attribute.as_str(), " = \"值\"] 属性")
                }
            },
            MacroError::InvalidAttributeValue { attribute, .. } => concat3(
                "请检查 #",
                attribute.as_str(),
                " 属性的值格式是否正确",
            ),
            MacroError::UnsupportedFieldType { field_name, field_type, .. } => concat5(
                "字段 '",
                field_name.as_str(),
                "' 的类型 '",
                field_type.as_str(),
                "' 不受支持，请使用支持的基本类型：String, i32, i64, f32, f64, bool 或其 Option 包装版本",
            ),
            _ => String::from_str("请检查宏的使用方式是否符合文档要求"),
        }
    }
}

/// The code of a `compile_error!` invocation carrying `message`.
pub open spec fn spec_compile_error_code(message: Seq<char>) -> Seq<char> {
    "compile_error ! ("@ + spec_string_literal(message) + ") ;"@
}

/// A `compile_error!` invocation carrying `message` (as token text).
pub fn create_compile_error(message: &str) -> (r: String)
    ensures
        r@ == spec_compile_error_code(message@),
{
    let mut s = String::from_str("compile_error ! (");
    s.append(string_literal(message).as_str());
    s.append(") ;");
    s
}

/// A `compile_error!` invocation carrying an error message followed by a
/// repair suggestion.
pub fn create_compile_error_with_suggestion(error_msg: &str, suggestion: &str) -> (r: String)
    ensures
        r@ == spec_compile_error_code(error_msg@ + "\n\n修复建议: "@ + suggestion@),
{
    let combined = concat3(error_msg, "\n\n修复建议: ", suggestion);
    create_compile_error(combined.as_str())
}

impl MacroError {
    /// The `compile_error!` invocation reporting the error, and where it
    /// points: the error's place, or the macro's call site.
    pub fn to_compile_error(&self) -> (r: (String, SpanRef))
        ensures
            r.0@ == spec_compile_error_code(spec_error_text(self@)),
            r.1 == match spec_error_span(self@) {
                Some(s) => s,
                None => SpanRef::CallSite,
            },
    {
        let message = self.to_string();
        let span = match self.get_span() {
            Some(s) => s,
            None => SpanRef::CallSite,
        };
        (create_compile_error(message.as_str()), span)
    }
}

} // verus!
