//! Processing a `#[derive(Node)]` input: parse the attributes, validate the
//! configuration, generate the code; and, on failure, the friendly message
//! that the emitted `compile_error!` carries.

use vstd::prelude::*;
use vstd::string::*;
use crate::common::error::{MacroError, MacroErrorV, MacroResult, spec_error_text};
use crate::generator::{CodeGenerator, GeneratorFactory};
use crate::generator::node_generator::{lit, spec_node_generate};
use crate::generator::tokens::string_literal;
use crate::parser::attribute_parser::{
    AttributeParser, spec_parse_node_attributes, string_result_view,
};
use crate::parser::validation::{Validator, spec_validate_node_config};
use crate::syntax::{SpanRef, SynDeriveInput};
use crate::text::concat;

verus! {

/// The outcome of processing a Node derive input: the generated code, or
/// the first failure, wrapped with the stage it happened in.
pub open spec fn spec_process_derive_node(input: crate::syntax::SynDeriveInputV) -> Result<
    Seq<char>,
    MacroErrorV,
> {
    match spec_parse_node_attributes(input) {
        Err(e) => Err(
            MacroErrorV::ParseError {
                message: "Node 属性解析失败: "@ + spec_error_text(e),
                span: Some(SpanRef::Input),
            },
        ),
        Ok(c) => match spec_validate_node_config(c) {
            Err(e) => Err(
                MacroErrorV::ValidationError {
                    message: "Node 配置验证失败: "@ + spec_error_text(e),
                    span: Some(SpanRef::Input),
                },
            ),
            Ok(()) => match spec_node_generate(input, c) {
                Err(e) => Err(
                    MacroErrorV::GenerationError {
                        message: "Node 代码生成失败: "@ + spec_error_text(e),
                        span: Some(SpanRef::Input),
                    },
                ),
                Ok(code) => Ok(code),
            },
        },
    }
}

/// The message shown to the user for an error, with help on repairing it.
pub open spec fn spec_friendly_error_message(e: MacroErrorV) -> Seq<char> {
    match e {
        MacroErrorV::ParseError { message, .. } => "ModuForge Node 派生宏解析错误:\n\n"@ + message
            + "\n\n帮助信息:\n• 检查宏属性的语法是否正确\n• 确保所有必需的属性都已设置\n• 参考文档中的示例用法"@,
        MacroErrorV::ValidationError { message, .. } => "ModuForge Node 派生宏验证错误:\n\n"@ + message
            + "\n\n帮助信息:\n• 检查字段类型是否受支持\n• 确保属性值符合要求\n• 验证配置的一致性"@,
        MacroErrorV::UnsupportedFieldType { field_name, field_type, .. } =>
            "ModuForge Node 派生宏类型错误:\n\n字段 '"@ + field_name + "' 的类型 '"@ + field_type
            + "' 不受支持\n\n支持的类型包括:\n• 基本类型: String, i32, f64, bool 等\n• 可选类型: Option<T> (T 为任意支持的基本类型)\n\n如需支持其他类型，请参考自定义转换器文档"@,
        MacroErrorV::GenerationError { message, .. } => "ModuForge Node 派生宏代码生成错误:\n\n"@ + message
            + "\n\n这通常是内部错误，请报告此问题:\n• 包含完整的错误信息\n• 提供导致错误的代码示例\n• 说明您的使用场景"@,
        MacroErrorV::MissingAttribute { attribute, .. } =>
            "ModuForge Node 派生宏缺少属性错误:\n\n缺少必需的属性: "@ + attribute
            + "\n\n帮助信息:\n• 确保在结构体上添加了所有必需的宏属性\n• 检查属性名称的拼写是否正确\n• 参考文档中的完整示例"@,
        MacroErrorV::InvalidAttributeValue { attribute, value, reason, .. } =>
            "ModuForge Node 派生宏无效属性值错误:\n\n属性 '"@ + attribute + "' 的值 '"@ + value
            + "' 无效: "@ + reason
            + "\n\n帮助信息:\n• 检查属性值的格式是否符合要求\n• 确认属性值不为空且符合语法规则\n• 参考文档中的有效属性值示例"@,
        MacroErrorV::SyntaxError { message, .. } => "ModuForge Node 派生宏语法错误:\n\n"@ + message
            + "\n\n帮助信息:\n• 检查代码的语法是否正确\n• 确认所有括号和引号都已正确闭合\n• 验证结构体定义的完整性"@,
    }
}

/// The code emitted for a Node derive input: the generated code, or a
/// `compile_error!` carrying the friendly message of the failure.
pub open spec fn spec_process_derive_node_with_recovery(input: crate::syntax::SynDeriveInputV) -> Seq<
    char,
> {
    match spec_process_derive_node(input) {
        Ok(code) => code,
        Err(e) => "compile_error ! ("@ + lit(spec_friendly_error_message(e)) + ") ;"@,
    }
}

/// Processes a Node derive input (see `spec_process_derive_node`).
pub fn process_derive_node(input: SynDeriveInput) -> (r: MacroResult<String>)
    ensures
        string_result_view(r) == spec_process_derive_node(input@),
{
    let config = match AttributeParser::parse_node_attributes(&input) {
        Ok(c) => c,
        Err(e) => {
            return Err(
                MacroError::parse_error(
                    concat("Node 属性解析失败: ", e.to_string().as_str()).as_str(),
                    SpanRef::Input,
                ),
            );
        },
    };
    match Validator::validate_node_config(&config) {
        Ok(()) => {},
        Err(e) => {
            return Err(
                MacroError::validation_error(
                    concat("Node 配置验证失败: ", e.to_string().as_str()).as_str(),
                    SpanRef::Input,
                ),
            );
        },
    }
    let generator = GeneratorFactory::create_node_generator(&input, &config);
    proof {
        generator.lemma_generate();
    }
    match generator.generate() {
        Ok(code) => Ok(code),
        Err(e) => Err(
            MacroError::generation_error(
                concat("Node 代码生成失败: ", e.to_string().as_str()).as_str(),
                SpanRef::Input,
            ),
        ),
    }
}

/// Processes a Node derive input, turning a failure into a
/// `compile_error!` with its friendly message.
pub fn process_derive_node_with_recovery(input: SynDeriveInput) -> (r: String)
    ensures
        r@ == spec_process_derive_node_with_recovery(input@),
{
    match process_derive_node(input) {
        Ok(tokens) => tokens,
        Err(error) => {
            let message = create_friendly_error_message(&error);
            let mut s = String::from_str("compile_error ! (");
            s.append(string_literal(message.as_str()).as_str());
            s.append(") ;");
            s
        },
    }
}

/// The message shown to the user for an error (see
/// `spec_friendly_error_message`).
pub fn create_friendly_error_message(error: &MacroError) -> (r: String)
    ensures
        r@ == spec_friendly_error_message(error@),
{
    let mut s;
    match error {
        MacroError::ParseError { message, .. } => {
            s = String::from_str("ModuForge Node 派生宏解析错误:\n\n");
            s.append(message.as_str());
            s.append("\n\n帮助信息:\n• 检查宏属性的语法是否正确\n• 确保所有必需的属性都已设置\n• 参考文档中的示例用法");
        },
        MacroError::ValidationError { message, .. } => {
            s = String::from_str("ModuForge Node 派生宏验证错误:\n\n");
            s.append(message.as_str());
            s.append("\n\n帮助信息:\n• 检查字段类型是否受支持\n• 确保属性值符合要求\n• 验证配置的一致性");
        },
        MacroError::UnsupportedFieldType { field_name, field_type, .. } => {
            s = String::from_str("ModuForge Node 派生宏类型错误:\n\n字段 '");
            s.append(field_name.as_str());
            s.append("' 的类型 '");
            s.append(field_type.as_str());
            s.append(
                "' 不受支持\n\n支持的类型包括:\n• 基本类型: String, i32, f64, bool 等\n• 可选类型: Option<T> (T 为任意支持的基本类型)\n\n如需支持其他类型，请参考自定义转换器文档",
            );
        },
        MacroError::GenerationError { message, .. } => {
            s = String::from_str("ModuForge Node 派生宏代码生成错误:\n\n");
            s.append(message.as_str());
            s.append(
                "\n\n这通常是内部错误，请报告此问题:\n• 包含完整的错误信息\n• 提供导致错误的代码示例\n• 说明您的使用场景",
            );
        },
        MacroError::MissingAttribute { attribute, .. } => {
            s = String::from_str("ModuForge Node 派生宏缺少属性错误:\n\n缺少必需的属性: ");
            s.append(attribute.as_str());
            s.append(
                "\n\n帮助信息:\n• 确保在结构体上添加了所有必需的宏属性\n• 检查属性名称的拼写是否正确\n• 参考文档中的完整示例",
            );
        },
        MacroError::InvalidAttributeValue { attribute, value, reason, .. } => {
            s = String::from_str("ModuForge Node 派生宏无效属性值错误:\n\n属性 '");
            s.append(attribute.as_str());
            s.append("' 的值 '");
            s.append(value.as_str());
            s.append("' 无效: ");
            s.append(reason.as_str());
            s.append(
                "\n\n帮助信息:\n• 检查属性值的格式是否符合要求\n• 确认属性值不为空且符合语法规则\n• 参考文档中的有效属性值示例",
            );
        },
        MacroError::SyntaxError { message, .. } => {
            s = String::from_str("ModuForge Node 派生宏语法错误:\n\n");
            s.append(message.as_str());
            s.append("\n\n帮助信息:\n• 检查代码的语法是否正确\n• 确认所有括号和引号都已正确闭合\n• 验证结构体定义的完整性");
        },
    }
    s
}

} // verus!
