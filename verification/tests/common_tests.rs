use mf_derive::parser::attribute_parser::AttributeParser;
use mf_derive::syntax::{
    SynAttribute, SynData, SynDeriveInput, SynExpr, SynField, SynFields, SynGenericArgument,
    SynLit, SynMeta, SynNestedMeta, SynPathArguments, SynPathSegment, SynType, SynTypeKind,
};
use quote::ToTokens;
use syn::parse::Parser;

fn tokens_of<T: ToTokens>(t: &T) -> String {
    t.to_token_stream().to_string()
}

fn model_type(ty: &syn::Type) -> SynType {
    let kind = match ty {
        syn::Type::Path(p) => SynTypeKind::Path(
            p.path
                .segments
                .iter()
                .map(|seg| SynPathSegment {
                    ident: seg.ident.to_string(),
                    arguments: match &seg.arguments {
                        syn::PathArguments::None => SynPathArguments::Bare,
                        syn::PathArguments::AngleBracketed(a) => SynPathArguments::AngleBracketed(
                            a.args
                                .iter()
                                .map(|g| match g {
                                    syn::GenericArgument::Type(t) => {
                                        SynGenericArgument::Type(model_type(t))
                                    },
                                    _ => SynGenericArgument::Other,
                                })
                                .collect(),
                        ),
                        syn::PathArguments::Parenthesized(_) => SynPathArguments::Parenthesized,
                    },
                })
                .collect(),
        ),
        syn::Type::Tuple(t) if t.elems.is_empty() => SynTypeKind::UnitTuple,
        _ => SynTypeKind::Other,
    };
    SynType { tokens: tokens_of(ty), kind }
}

fn model_expr(e: &syn::Expr) -> SynExpr {
    match e {
        syn::Expr::Lit(l) => SynExpr::Lit(match &l.lit {
            syn::Lit::Str(s) => SynLit::Str(s.value()),
            syn::Lit::Int(i) => SynLit::Int(i.base10_digits().to_string()),
            syn::Lit::Float(f) => SynLit::Float(f.base10_digits().to_string()),
            syn::Lit::Bool(b) => SynLit::Bool(b.value),
            _ => SynLit::Other(tokens_of(l)),
        }),
        syn::Expr::Path(p) => SynExpr::Path {
            ident: p.path.get_ident().map(|i| i.to_string()),
            tokens: tokens_of(p),
        },
        syn::Expr::Unary(u) => SynExpr::Unary {
            is_neg: matches!(u.op, syn::UnOp::Neg(_)),
            expr: Box::new(model_expr(&u.expr)),
            tokens: tokens_of(u),
        },
        _ => SynExpr::Other { tokens: tokens_of(e) },
    }
}

fn float_literal_of(value: &SynExpr) -> Option<String> {
    let text = AttributeParser::extract_value_from_expr(value);
    match text.trim().parse::<f64>() {
        Ok(f) if f.is_finite() => Some(proc_macro2::Literal::f64_suffixed(f).to_string()),
        _ => None,
    }
}

fn model_nested(m: &syn::Meta) -> SynNestedMeta {
    match m {
        syn::Meta::NameValue(nv) => {
            let value = model_expr(&nv.value);
            let float_literal = float_literal_of(&value);
            SynNestedMeta::NameValue {
                path_ident: nv.path.get_ident().map(|i| i.to_string()),
                value,
                float_literal,
            }
        },
        _ => SynNestedMeta::Other,
    }
}

fn model_attr(a: &syn::Attribute) -> SynAttribute {
    let meta = match &a.meta {
        syn::Meta::Path(_) => SynMeta::Path,
        syn::Meta::List(l) => SynMeta::List(
            l.parse_args_with(
                syn::punctuated::Punctuated::<syn::Meta, syn::token::Comma>::parse_terminated,
            )
            .map(|p| p.iter().map(model_nested).collect())
            .map_err(|e| e.to_string()),
        ),
        syn::Meta::NameValue(nv) => SynMeta::NameValue(model_expr(&nv.value)),
    };
    SynAttribute { path_ident: a.path().get_ident().map(|i| i.to_string()), meta }
}

fn model_field(f: &syn::Field) -> SynField {
    SynField {
        ident: f.ident.as_ref().map(|i| i.to_string()),
        ty: model_type(&f.ty),
        attrs: f.attrs.iter().map(model_attr).collect(),
    }
}

fn model_input(input: &syn::DeriveInput) -> SynDeriveInput {
    let data = match &input.data {
        syn::Data::Struct(s) => SynData::Struct(match &s.fields {
            syn::Fields::Named(n) => SynFields::Named(n.named.iter().map(model_field).collect()),
            syn::Fields::Unnamed(_) => SynFields::Unnamed,
            syn::Fields::Unit => SynFields::Unit,
        }),
        syn::Data::Enum(_) => SynData::Enum,
        syn::Data::Union(_) => SynData::Union,
    };
    SynDeriveInput {
        ident: input.ident.to_string(),
        attrs: input.attrs.iter().map(model_attr).collect(),
        data,
    }
}

fn parse_input(src: &str) -> SynDeriveInput {
    model_input(&syn::parse_str::<syn::DeriveInput>(src).expect("derive input"))
}

fn parse_type(src: &str) -> SynType {
    model_type(&syn::parse_str::<syn::Type>(src).expect("type"))
}

fn parse_field(src: &str) -> SynField {
    model_field(&syn::Field::parse_named.parse_str(src).expect("field"))
}

fn parse_expr(src: &str) -> SynExpr {
    model_expr(&syn::parse_str::<syn::Expr>(src).expect("expr"))
}

use mf_derive::common::constants::{
    codegen, error_messages, optional_attributes, performance, required_attributes,
    suggestion_templates, validation, COMMON_MARK_TYPES, COMMON_NODE_TYPES, SUPPORTED_BASIC_TYPES,
};
use mf_derive::common::error::{create_compile_error, create_compile_error_with_suggestion, MacroError};
use mf_derive::common::utils::{
    extract_option_inner_type, extract_type_name, generate_attr_setter_code,
    generate_field_conversion, generate_imports, is_option_type, is_supported_type,
    is_valid_identifier, remove_spaces,
};
use mf_derive::syntax::SpanRef;
use mf_derive::generator::tokens::string_literal;
use mf_derive::text::trim;

#[test]
fn test_supported_basic_types() {
    assert!(SUPPORTED_BASIC_TYPES.contains(&"String"));
    assert!(SUPPORTED_BASIC_TYPES.contains(&"i32"));
    assert!(SUPPORTED_BASIC_TYPES.contains(&"f64"));
    assert!(SUPPORTED_BASIC_TYPES.contains(&"bool"));
    assert!(!SUPPORTED_BASIC_TYPES.is_empty());
}

#[test]
fn test_common_node_types() {
    assert!(COMMON_NODE_TYPES.contains(&"paragraph"));
    assert!(COMMON_NODE_TYPES.contains(&"heading"));
    assert!(COMMON_NODE_TYPES.contains(&"text"));
    assert!(!COMMON_NODE_TYPES.is_empty());
}

#[test]
fn test_common_mark_types() {
    assert!(COMMON_MARK_TYPES.contains(&"bold"));
    assert!(COMMON_MARK_TYPES.contains(&"italic"));
    assert!(COMMON_MARK_TYPES.contains(&"code"));
    assert!(!COMMON_MARK_TYPES.is_empty());
}

#[test]
fn test_required_attributes() {
    assert!(required_attributes::NODE_REQUIRED.contains(&"node_type"));
    assert!(required_attributes::MARK_REQUIRED.contains(&"mark_type"));
}

#[test]
fn test_optional_attributes() {
    assert!(optional_attributes::NODE_OPTIONAL.contains(&"marks"));
    assert!(optional_attributes::NODE_OPTIONAL.contains(&"content"));
    assert!(optional_attributes::FIELD_ATTRIBUTES.contains(&"attr"));
}

#[test]
fn test_error_message_templates() {
    assert!(error_messages::MISSING_ATTRIBUTE_TEMPLATE.contains("{attribute}"));
    assert!(error_messages::INVALID_ATTRIBUTE_VALUE_TEMPLATE.contains("{value}"));
    assert!(error_messages::UNSUPPORTED_FIELD_TYPE_TEMPLATE.contains("{field_type}"));
}

#[test]
fn test_suggestion_templates() {
    assert!(suggestion_templates::MISSING_NODE_TYPE_SUGGESTION.contains("node_type"));
    assert!(suggestion_templates::MISSING_MARK_TYPE_SUGGESTION.contains("mark_type"));
    assert!(!suggestion_templates::GENERAL_SUGGESTION.is_empty());
}

#[test]
fn test_codegen_constants() {
    assert_eq!(codegen::NODE_CONVERTER_METHOD, "to_node");
    assert_eq!(codegen::MARK_CONVERTER_METHOD, "to_mark");
    assert_eq!(codegen::NODE_INSTANCE_VAR, "node");
    assert_eq!(codegen::MARK_INSTANCE_VAR, "mark");
}

#[test]
fn test_validation_constants() {
    assert!(validation::MIN_IDENTIFIER_LENGTH > 0);
    assert!(validation::MAX_IDENTIFIER_LENGTH > validation::MIN_IDENTIFIER_LENGTH);
    assert!(validation::MAX_MARKS_COUNT > 0);
    assert!(validation::MAX_FIELD_ATTRIBUTES > 0);
}

#[test]
fn test_performance_constants() {
    assert!(performance::TYPE_ANALYSIS_CACHE_SIZE > 0);
    assert!(performance::CODEGEN_CACHE_SIZE > 0);
    assert!(performance::BATCH_PROCESS_THRESHOLD > 0);
}

#[test]
fn test_missing_attribute_error() {
    let error = MacroError::missing_attribute("node_type", SpanRef::Input);
    let error_str = error.to_string();
    assert!(error_str.contains("缺少必需的宏属性: node_type"));
    let suggestion = error.suggestion();
    assert!(suggestion.contains("node_type"));
    assert!(suggestion.contains("paragraph"));
}

#[test]
fn test_invalid_attribute_value_error() {
    let error = MacroError::invalid_attribute_value("node_type", "", "值不能为空", SpanRef::Input);
    let error_str = error.to_string();
    assert!(error_str.contains("无效的属性值"));
    assert!(error_str.contains("node_type"));
    assert!(error_str.contains("值不能为空"));
}

#[test]
fn test_to_compile_error() {
    let error = MacroError::ParseError { message: "测试错误".to_string(), span: None };
    let (compile_error_str, span) = error.to_compile_error();
    assert!(compile_error_str.contains("compile_error"));
    assert!(compile_error_str.contains("测试错误"));
    assert_eq!(span, SpanRef::CallSite);
}

#[test]
fn test_error_suggestions() {
    let missing_node_type =
        MacroError::MissingAttribute { attribute: "node_type".to_string(), span: None };
    let suggestion = missing_node_type.suggestion();
    assert!(suggestion.contains("node_type"));
    assert!(suggestion.contains("paragraph"));

    let missing_mark_type =
        MacroError::MissingAttribute { attribute: "mark_type".to_string(), span: None };
    let suggestion = missing_mark_type.suggestion();
    assert!(suggestion.contains("mark_type"));
    assert!(suggestion.contains("bold"));
}

#[test]
fn test_is_option_type() {
    let option_string = parse_type("Option<String>");
    assert!(is_option_type(&option_string));
    let string = parse_type("String");
    assert!(!is_option_type(&string));
    let option_int = parse_type("Option<i32>");
    assert!(is_option_type(&option_int));
}

#[test]
fn test_extract_option_inner_type() {
    let option_string = parse_type("Option<String>");
    let inner = extract_option_inner_type(&option_string);
    assert!(inner.is_some());
    let string = parse_type("String");
    let inner = extract_option_inner_type(&string);
    assert!(inner.is_none());
}

#[test]
fn test_is_supported_type() {
    let string = parse_type("String");
    assert!(is_supported_type(&string));
    let option_string = parse_type("Option<String>");
    assert!(is_supported_type(&option_string));
    let vec_string = parse_type("Vec<String>");
    assert!(!is_supported_type(&vec_string));
    let i32_type = parse_type("i32");
    assert!(is_supported_type(&i32_type));
    let option_i32 = parse_type("Option<i32>");
    assert!(is_supported_type(&option_i32));
}

#[test]
fn test_extract_type_name() {
    let string = parse_type("String");
    assert_eq!(extract_type_name(&string), "String");
    let option_string = parse_type("Option<String>");
    assert_eq!(extract_type_name(&option_string), "Option<String>");
    let option_i32 = parse_type("Option<i32>");
    assert_eq!(extract_type_name(&option_i32), "Option<i32>");
}

#[test]
fn test_is_valid_identifier() {
    assert!(is_valid_identifier("valid_name"));
    assert!(is_valid_identifier("ValidName"));
    assert!(is_valid_identifier("valid123"));
    assert!(is_valid_identifier("_private"));

    assert!(!is_valid_identifier(""));
    assert!(!is_valid_identifier("123invalid"));
    assert!(!is_valid_identifier("invalid-name"));
    assert!(!is_valid_identifier("invalid name"));
}

#[test]
fn test_generate_imports() {
    let imports_str = generate_imports();
    assert!(imports_str.contains("mf_model :: node_type :: NodeSpec"));
    assert!(imports_str.contains("mf_model :: schema :: AttributeSpec"));
    assert!(imports_str.contains("serde_json :: Value"));
    assert!(imports_str.contains("std :: collections :: HashMap"));
}

#[test]
fn test_generate_field_conversion() {
    let string_type = parse_type("String");
    let conversion_str = generate_field_conversion("test_field", &string_type);
    assert!(conversion_str.contains("serde_json :: to_value"));
    assert!(conversion_str.contains("test_field"));

    let option_type = parse_type("Option<String>");
    let conversion_str = generate_field_conversion("test_field", &option_type);
    assert!(conversion_str.contains("as_ref"));
    assert!(conversion_str.contains("unwrap_or"));
}

// ---------------------------------------------------------------- own tests

#[test]
fn generated_imports_parse_as_items() {
    let file = syn::parse_str::<syn::File>(generate_imports()).expect("imports parse");
    assert_eq!(file.items.len(), 4);
}

#[test]
fn field_conversion_is_exact_and_parses() {
    let plain = generate_field_conversion("count", &parse_type("i32"));
    assert_eq!(plain, "serde_json :: to_value (& self . count) . unwrap_or (JsonValue :: Null)");
    let optional = generate_field_conversion("label", &parse_type("Option<String>"));
    assert_eq!(
        optional,
        "self . label . as_ref () . map (| v | serde_json :: to_value (v) . unwrap_or (JsonValue :: Null)) . unwrap_or (JsonValue :: Null)"
    );
    assert!(syn::parse_str::<syn::Expr>(&plain).is_ok());
    assert!(syn::parse_str::<syn::Expr>(&optional).is_ok());
    // the generated text matches the token printer's own text
    let reparsed: proc_macro2::TokenStream = optional.parse().unwrap();
    assert_eq!(reparsed.to_string(), optional);
}

#[test]
fn attr_setter_code_falls_back_to_target() {
    let code = generate_attr_setter_code("name", &parse_type("String"), "node");
    assert!(code.starts_with("node . set_attr (\"name\" , Some (serde_json :: to_value"));
    let code = generate_attr_setter_code("name", &parse_type("String"), "not an ident");
    assert!(code.starts_with("target . set_attr ("));
    assert!(syn::parse_str::<syn::Stmt>(&code).is_ok());
}

#[test]
fn compile_error_text_carries_message_and_suggestion() {
    let code = create_compile_error("坏了");
    assert_eq!(code, "compile_error ! (\"坏了\") ;");
    let code = create_compile_error_with_suggestion("错误", "修复");
    assert_eq!(code, "compile_error ! (\"错误\\n\\n修复建议: 修复\") ;");
    assert!(syn::parse_str::<syn::Stmt>(&code).is_ok());
}

#[test]
fn error_display_texts() {
    let e = MacroError::unsupported_field_type("data", "Vec<String>", SpanRef::Field(2));
    assert_eq!(e.to_string(), "不支持的字段类型 'Vec<String>' 在字段 'data' 中");
    assert_eq!(e.get_span(), Some(SpanRef::Field(2)));
    assert!(e.suggestion().starts_with("字段 'data' 的类型 'Vec<String>' 不受支持"));
    let e = MacroError::parse_error("x", SpanRef::Input);
    assert_eq!(e.to_string(), "属性解析错误: x");
    assert_eq!(e.suggestion(), "请检查宏的使用方式是否符合文档要求");
    let e = MacroError::validation_error("y", SpanRef::Input);
    assert_eq!(e.to_string(), "验证错误: y");
    let e = MacroError::generation_error("z", SpanRef::CallSite);
    assert_eq!(e.to_string(), "代码生成错误: z");
    let e = MacroError::MissingAttribute { attribute: "desc".to_string(), span: None };
    assert_eq!(e.suggestion(), "请在结构体上添加 #[desc = \"值\"] 属性");
    let e = MacroError::invalid_attribute_value("marks", "", "r", SpanRef::Input);
    assert_eq!(e.suggestion(), "请检查 #marks 属性的值格式是否正确");
}

#[test]
fn identifier_edge_cases() {
    assert!(is_valid_identifier("_"));
    assert!(is_valid_identifier("a"));
    assert!(!is_valid_identifier("a.b"));
    assert!(!is_valid_identifier("9"));
}

#[test]
fn type_name_and_support_edge_cases() {
    assert_eq!(extract_type_name(&parse_type("std::option::Option<String>")), "Option<String>");
    assert_eq!(extract_type_name(&parse_type("HashMap<String, i32>")), "HashMap<String, i32>");
    assert_eq!(extract_type_name(&parse_type("&str")), "& str");
    assert!(is_supported_type(&parse_type("&str")));
    assert!(is_supported_type(&parse_type("Vec<u8>")));
    assert!(!is_supported_type(&parse_type("Option<Vec<String>>")));
    assert!(is_option_type(&parse_type("std::option::Option<i32>")));
    assert_eq!(remove_spaces(" a b "), "ab");
}

#[test]
fn string_literals_escape_quotes_backslashes_and_line_breaks() {
    assert_eq!(string_literal("plain"), "\"plain\"");
    assert_eq!(string_literal("a\"b\\c"), "\"a\\\"b\\\\c\"");
    assert_eq!(string_literal("x\ty\nz\r"), "\"x\\ty\\nz\\r\"");
    assert_eq!(string_literal("中文 é"), "\"中文 é\"");
    assert_eq!(string_literal(""), "\"\"");
}

#[test]
fn string_literals_read_back_as_their_value() {
    for s in ["", "a\"b", "\\", "tab\tnl\ncr\r", "e\u{301}", "del\u{7f}", "nul\u{0}7", "符号•"] {
        let lit: syn::LitStr = syn::parse_str(&string_literal(s)).expect("a string literal");
        assert_eq!(lit.value(), s);
    }
}

#[test]
fn trimming_follows_unicode_white_space() {
    assert_eq!(trim("\u{3000}\u{85} x y\u{a0}\u{2029}"), "x y");
    assert_eq!(trim("\u{200b}x"), "\u{200b}x");
}
