use mf_derive::parser::attribute_parser::AttributeParser;
use mf_derive::syntax::{
    SynAttribute, SynData, SynDeriveInput, SynExpr, SynField, SynFields, SynGenericArgument,
    SynLit, SynMeta, SynNestedMeta, SynPathArguments, SynPathSegment, SynType, SynTypeKind,
};
use quote::ToTokens;
use syn::parse::Parser;

fn tokens_of<T: ToTokens>(t: &T) -> String {
    t.to_token_stream().to_string()
}

fn model_type(ty: &syn::Type) -> SynType {
    let kind = match ty {
        syn::Type::Path(p) => SynTypeKind::Path(
            p.path
                .segments
                .iter()
                .map(|seg| SynPathSegment {
                    ident: seg.ident.to_string(),
                    arguments: match &seg.arguments {
                        syn::PathArguments::None => SynPathArguments::Bare,
                        syn::PathArguments::AngleBracketed(a) => SynPathArguments::AngleBracketed(
                            a.args
                                .iter()
                                .map(|g| match g {
                                    syn::GenericArgument::Type(t) => {
                                        SynGenericArgument::Type(model_type(t))
                                    },
                                    _ => SynGenericArgument::Other,
                                })
                                .collect(),
                        ),
                        syn::PathArguments::Parenthesized(_) => SynPathArguments::Parenthesized,
                    },
                })
                .collect(),
        ),
        syn::Type::Tuple(t) if t.elems.is_empty() => SynTypeKind::UnitTuple,
        _ => SynTypeKind::Other,
    };
    SynType { tokens: tokens_of(ty), kind }
}

fn model_expr(e: &syn::Expr) -> SynExpr {
    match e {
        syn::Expr::Lit(l) => SynExpr::Lit(match &l.lit {
            syn::Lit::Str(s) => SynLit::Str(s.value()),
            syn::Lit::Int(i) => SynLit::Int(i.base10_digits().to_string()),
            syn::Lit::Float(f) => SynLit::Float(f.base10_digits().to_string()),
            syn::Lit::Bool(b) => SynLit::Bool(b.value),
            _ => SynLit::Other(tokens_of(l)),
        }),
        syn::Expr::Path(p) => SynExpr::Path {
            ident: p.path.get_ident().map(|i| i.to_string()),
            tokens: tokens_of(p),
        },
        syn::Expr::Unary(u) => SynExpr::Unary {
            is_neg: matches!(u.op, syn::UnOp::Neg(_)),
            expr: Box::new(model_expr(&u.expr)),
            tokens: tokens_of(u),
        },
        _ => SynExpr::Other { tokens: tokens_of(e) },
    }
}

fn float_literal_of(value: &SynExpr) -> Option<String> {
    let text = AttributeParser::extract_value_from_expr(value);
    match text.trim().parse::<f64>() {
        Ok(f) if f.is_finite() => Some(proc_macro2::Literal::f64_suffixed(f).to_string()),
        _ => None,
    }
}

fn model_nested(m: &syn::Meta) -> SynNestedMeta {
    match m {
        syn::Meta::NameValue(nv) => {
            let value = model_expr(&nv.value);
            let float_literal = float_literal_of(&value);
            SynNestedMeta::NameValue {
                path_ident: nv.path.get_ident().map(|i| i.to_string()),
                value,
                float_literal,
            }
        },
        _ => SynNestedMeta::Other,
    }
}

fn model_attr(a: &syn::Attribute) -> SynAttribute {
    let meta = match &a.meta {
        syn::Meta::Path(_) => SynMeta::Path,
        syn::Meta::List(l) => SynMeta::List(
            l.parse_args_with(
                syn::punctuated::Punctuated::<syn::Meta, syn::token::Comma>::parse_terminated,
            )
            .map(|p| p.iter().map(model_nested).collect())
            .map_err(|e| e.to_string()),
        ),
        syn::Meta::NameValue(nv) => SynMeta::NameValue(model_expr(&nv.value)),
    };
    SynAttribute { path_ident: a.path().get_ident().map(|i| i.to_string()), meta }
}

fn model_field(f: &syn::Field) -> SynField {
    SynField {
        ident: f.ident.as_ref().map(|i| i.to_string()),
        ty: model_type(&f.ty),
        attrs: f.attrs.iter().map(model_attr).collect(),
    }
}

fn model_input(input: &syn::DeriveInput) -> SynDeriveInput {
    let data = match &input.data {
        syn::Data::Struct(s) => SynData::Struct(match &s.fields {
            syn::Fields::Named(n) => SynFields::Named(n.named.iter().map(model_field).collect()),
            syn::Fields::Unnamed(_) => SynFields::Unnamed,
            syn::Fields::Unit => SynFields::Unit,
        }),
        syn::Data::Enum(_) => SynData::Enum,
        syn::Data::Union(_) => SynData::Union,
    };
    SynDeriveInput {
        ident: input.ident.to_string(),
        attrs: input.attrs.iter().map(model_attr).collect(),
        data,
    }
}

fn parse_input(src: &str) -> SynDeriveInput {
    model_input(&syn::parse_str::<syn::DeriveInput>(src).expect("derive input"))
}

fn parse_type(src: &str) -> SynType {
    model_type(&syn::parse_str::<syn::Type>(src).expect("type"))
}

fn parse_field(src: &str) -> SynField {
    model_field(&syn::Field::parse_named.parse_str(src).expect("field"))
}

fn parse_expr(src: &str) -> SynExpr {
    model_expr(&syn::parse_str::<syn::Expr>(src).expect("expr"))
}

use mf_derive::common::constants::validation as limits;
use mf_derive::common::error::MacroError;
use mf_derive::parser::attribute_parser::{FieldConfig, MarkConfig, NodeConfig};
use mf_derive::parser::default_value::{DefaultValue, DefaultValueParser, DefaultValueType};
use mf_derive::parser::field_analyzer::{FieldAnalysis, FieldAnalyzer};
use mf_derive::parser::validation::Validator;
use mf_derive::syntax::SpanRef;

/// The suffixed `f64` literal of a text that reads as a finite float, as
/// the macro front end reports it.
fn float_of(raw: &str) -> Option<String> {
    match raw.trim().parse::<f64>() {
        Ok(f) if f.is_finite() => Some(proc_macro2::Literal::f64_suffixed(f).to_string()),
        _ => None,
    }
}

fn parse_default(raw: &str) -> Result<DefaultValue, MacroError> {
    DefaultValueParser::parse(raw, None, float_of(raw))
}

/// The number a float default holds.
fn float_value(literal: &str) -> f64 {
    literal.trim_end_matches("f64").parse::<f64>().unwrap()
}

fn json_value(text: &str) -> serde_json::Value {
    serde_json::from_str(text).unwrap()
}

// ------------------------------------------------------------ attribute parser

#[test]
fn test_parse_basic_node_attributes() {
    let input = parse_input(
        r#"
        #[derive(Node)]
        #[node_type = "paragraph"]
        struct ParagraphNode {
            #[attr]
            content: String,
        }
        "#,
    );
    let result = AttributeParser::parse_node_attributes(&input);
    assert!(result.is_ok());
    let config = result.unwrap();
    assert_eq!(config.node_type, Some("paragraph".to_string()));
    assert_eq!(config.attr_fields.len(), 1);
    assert_eq!(config.attr_fields[0].name, "content");
    assert!(!config.attr_fields[0].is_optional);
}

#[test]
fn test_parse_full_node_attributes() {
    let input = parse_input(
        r#"
        #[derive(Node)]
        #[node_type = "paragraph"]
        #[marks = "bold italic underline"]
        #[content = "text*"]
        struct ParagraphNode {
            #[attr]
            content: String,

            #[attr]
            alignment: Option<String>,

            private_field: i32,
        }
        "#,
    );
    let result = AttributeParser::parse_node_attributes(&input);
    assert!(result.is_ok());
    let config = result.unwrap();
    assert_eq!(config.node_type, Some("paragraph".to_string()));
    assert_eq!(config.marks, Some("bold italic underline".to_string()));
    assert_eq!(config.content, Some("text*".to_string()));
    assert_eq!(config.attr_fields.len(), 2);
    assert_eq!(config.attr_fields[0].name, "content");
    assert!(!config.attr_fields[0].is_optional);
    assert_eq!(config.attr_fields[1].name, "alignment");
    assert!(config.attr_fields[1].is_optional);
}

#[test]
fn test_parse_basic_mark_attributes() {
    let input = parse_input(
        r#"
        #[derive(Mark)]
        #[mark_type = "bold"]
        struct BoldMark {
            #[attr]
            strength: i32,
        }
        "#,
    );
    let result = AttributeParser::parse_mark_attributes(&input);
    assert!(result.is_ok());
    let config = result.unwrap();
    assert_eq!(config.mark_type, Some("bold".to_string()));
    assert_eq!(config.attr_fields.len(), 1);
    assert_eq!(config.attr_fields[0].name, "strength");
}

#[test]
fn attribute_parser_test_missing_required_attribute_error() {
    let input = parse_input(
        r#"
        #[derive(Node)]
        struct InvalidNode {
            #[attr]
            content: String,
        }
        "#,
    );
    let result = AttributeParser::parse_node_attributes(&input);
    assert!(result.is_err());
    if let Err(MacroError::MissingAttribute { attribute, .. }) = result {
        assert_eq!(attribute, "node_type");
    } else {
        panic!("期望 MissingAttribute 错误");
    }
}

#[test]
fn test_empty_attribute_value_error() {
    let input = parse_input(
        r#"
        #[derive(Node)]
        #[node_type = ""]
        struct InvalidNode {
            #[attr]
            content: String,
        }
        "#,
    );
    let result = AttributeParser::parse_node_attributes(&input);
    assert!(result.is_err());
    if let Err(MacroError::InvalidAttributeValue { reason, .. }) = result {
        assert!(reason.contains("不能为空"));
    } else {
        panic!("期望 InvalidAttributeValue 错误");
    }
}

#[test]
fn test_parse_space_separated_list() {
    let result = AttributeParser::parse_space_separated_list("bold italic underline");
    assert_eq!(result, vec!["bold", "italic", "underline"]);
    let result = AttributeParser::parse_space_separated_list("bold  italic   underline");
    assert_eq!(result, vec!["bold", "italic", "underline"]);
    let result = AttributeParser::parse_space_separated_list("  bold italic underline  ");
    assert_eq!(result, vec!["bold", "italic", "underline"]);
    let result = AttributeParser::parse_space_separated_list("bold");
    assert_eq!(result, vec!["bold"]);
    let result = AttributeParser::parse_space_separated_list("");
    assert_eq!(result, Vec::<String>::new());
    let result = AttributeParser::parse_space_separated_list("   ");
    assert_eq!(result, Vec::<String>::new());
}

#[test]
fn test_unsupported_struct_types() {
    let input = parse_input(
        r#"
        #[derive(Node)]
        #[node_type = "tuple"]
        struct TupleStruct(String, i32);
        "#,
    );
    let result = AttributeParser::parse_node_attributes(&input);
    assert!(result.is_err());
    let input = parse_input(
        r#"
        #[derive(Node)]
        #[node_type = "enum"]
        enum EnumType {
            Variant1,
            Variant2,
        }
        "#,
    );
    let result = AttributeParser::parse_node_attributes(&input);
    assert!(result.is_err());
}

#[test]
fn test_node_config_validation() {
    let mut config = NodeConfig::default();
    config.node_type = Some("paragraph".to_string());
    assert!(config.validate().is_ok());

    let config = NodeConfig::default();
    assert!(config.validate().is_err());

    let mut config = NodeConfig::default();
    config.node_type = Some("paragraph".to_string());
    config.marks = Some("".to_string());
    assert!(config.validate().is_err());

    let mut config = NodeConfig::default();
    config.node_type = Some("paragraph".to_string());
    config.marks = Some("invalid-mark".to_string());
    assert!(config.validate().is_err());
}

#[test]
fn test_mark_config_validation() {
    let mut config = MarkConfig::default();
    config.mark_type = Some("bold".to_string());
    assert!(config.validate().is_ok());

    let config = MarkConfig::default();
    assert!(config.validate().is_err());

    let mut config = MarkConfig::default();
    config.mark_type = Some("invalid-type".to_string());
    assert!(config.validate().is_err());
}

#[test]
fn test_node_config_marks_string() {
    let mut config = NodeConfig::default();
    assert_eq!(config.marks_string(), None);
    config.marks = Some("bold italic".to_string());
    assert_eq!(config.marks_string(), Some("bold italic".to_string()));
}

#[test]
fn test_field_config_backward_compatibility() {
    let field = parse_field("content: String");
    let field_config =
        FieldConfig::new("content".to_string(), "String".to_string(), false, true, field, 0);
    assert_eq!(field_config.name, "content");
    assert_eq!(field_config.type_text, "String");
    assert!(!field_config.is_optional);
    assert!(field_config.is_attr);
    assert!(!field_config.has_default_value());
    assert!(field_config.get_default_value().is_none());
}

#[test]
fn test_field_config_default_value_methods() {
    let field = parse_field("content: String");
    let mut field_config =
        FieldConfig::new("content".to_string(), "String".to_string(), false, true, field, 0);
    assert!(!field_config.has_default_value());
    assert!(field_config.get_default_value().is_none());

    let default_value = parse_default("hello world").unwrap();

    field_config.set_default_value(Some(default_value.clone()));
    assert!(field_config.has_default_value());
    assert!(field_config.get_default_value().is_some());

    let stored_value = field_config.get_default_value().unwrap();
    assert_eq!(stored_value.raw_value, "hello world");
    assert!(
        matches!(stored_value.value_type, DefaultValueType::String(ref s) if s == "hello world")
    );

    field_config.set_default_value(None);
    assert!(!field_config.has_default_value());

    let field2 = parse_field("title: String");
    let field_config2 =
        FieldConfig::new("title".to_string(), "String".to_string(), false, true, field2, 1)
            .with_default_value(default_value);
    assert!(field_config2.has_default_value());
    assert_eq!(field_config2.get_default_value().unwrap().raw_value, "hello world");
}

#[test]
fn test_field_config_mutable_default_value() {
    let field = parse_field("content: String");
    let default_value = parse_default("initial").unwrap();
    let mut field_config =
        FieldConfig::new("content".to_string(), "String".to_string(), false, true, field, 0)
            .with_default_value(default_value);
    if let Some(default_value_mut) = field_config.get_default_value_mut() {
        assert_eq!(default_value_mut.raw_value, "initial");
    } else {
        panic!("应该有默认值");
    }
}

#[test]
fn test_parse_field_attr_with_default_values() {
    let field = parse_field("#[attr] content: String");
    let (is_attr, default_value) = AttributeParser::parse_field_attr_attribute(&field, 0).unwrap();
    assert!(is_attr);
    assert!(default_value.is_none());

    let field = parse_field("#[attr(default = \"hello world\")] content: String");
    let (is_attr, default_value) = AttributeParser::parse_field_attr_attribute(&field, 0).unwrap();
    assert!(is_attr);
    assert!(default_value.is_some());
    let default_val = default_value.unwrap();
    assert_eq!(default_val.raw_value, "hello world");
    assert!(
        matches!(default_val.value_type, DefaultValueType::String(ref s) if s == "hello world")
    );

    let field = parse_field("#[attr(default = 42)] count: i32");
    let (is_attr, default_value) = AttributeParser::parse_field_attr_attribute(&field, 0).unwrap();
    assert!(is_attr);
    assert!(default_value.is_some());
    let default_val = default_value.unwrap();
    assert_eq!(default_val.raw_value, "42");
    assert!(matches!(default_val.value_type, DefaultValueType::Integer(42)));

    let field = parse_field("#[attr(default = true)] enabled: bool");
    let (is_attr, default_value) = AttributeParser::parse_field_attr_attribute(&field, 0).unwrap();
    assert!(is_attr);
    assert!(default_value.is_some());
    let default_val = default_value.unwrap();
    assert_eq!(default_val.raw_value, "true");
    assert!(matches!(default_val.value_type, DefaultValueType::Boolean(true)));
}

#[test]
fn test_parse_id_field() {
    let input = parse_input(
        r#"
        #[derive(Node)]
        #[node_type = "test_node"]
        struct TestNode {
            #[id]
            node_id: String,

            #[attr]
            content: String,
        }
        "#,
    );
    let config = AttributeParser::parse_node_attributes(&input).unwrap();
    assert!(config.id_field.is_some());
    let id_field = config.id_field.unwrap();
    assert_eq!(id_field.name, "node_id");
    assert_eq!(id_field.type_text, "String");
    assert!(!id_field.is_optional);
    assert!(!id_field.is_attr);
    assert!(id_field.default_value.is_none());
}

#[test]
fn test_parse_optional_id_field() {
    let input = parse_input(
        r#"
        #[derive(Node)]
        #[node_type = "test_node"]
        struct TestNode {
            #[id]
            node_id: Option<String>,

            #[attr]
            content: String,
        }
        "#,
    );
    let config = AttributeParser::parse_node_attributes(&input).unwrap();
    assert!(config.id_field.is_some());
    let id_field = config.id_field.unwrap();
    assert_eq!(id_field.name, "node_id");
    assert_eq!(id_field.type_text, "Option<String>");
    assert!(id_field.is_optional);
}

#[test]
fn test_parse_no_id_field() {
    let input = parse_input(
        r#"
        #[derive(Node)]
        #[node_type = "test_node"]
        struct TestNode {
            #[attr]
            content: String,
        }
        "#,
    );
    let config = AttributeParser::parse_node_attributes(&input).unwrap();
    assert!(config.id_field.is_none());
}

#[test]
fn test_multiple_id_fields_error() {
    let input = parse_input(
        r#"
        #[derive(Node)]
        #[node_type = "test_node"]
        struct TestNode {
            #[id]
            node_id1: String,

            #[id]
            node_id2: String,

            #[attr]
            content: String,
        }
        "#,
    );
    let result = AttributeParser::parse_node_attributes(&input);
    assert!(result.is_err());
    if let Err(error) = result {
        let error_msg = format!("{error:?}");
        assert!(error_msg.contains("一个结构体只能有一个"));
    }
}

#[test]
fn test_duplicate_id_attribute_error() {
    let input = parse_input(
        r#"
        #[derive(Node)]
        #[node_type = "test_node"]
        struct TestNode {
            #[id]
            #[id]
            node_id: String,

            #[attr]
            content: String,
        }
        "#,
    );
    let result = AttributeParser::parse_node_attributes(&input);
    assert!(result.is_err());
    if let Err(error) = result {
        let error_msg = format!("{error:?}");
        assert!(error_msg.contains("多个 #[id] 属性"));
    }
}

#[test]
fn test_id_attribute_with_params_error() {
    let input = parse_input(
        r#"
        #[derive(Node)]
        #[node_type = "test_node"]
        struct TestNode {
            #[id(param = "value")]
            node_id: String,

            #[attr]
            content: String,
        }
        "#,
    );
    let result = AttributeParser::parse_node_attributes(&input);
    assert!(result.is_err());
    if let Err(error) = result {
        let error_msg = format!("{error:?}");
        assert!(error_msg.contains("不支持参数"));
    }
}

#[test]
fn test_id_attribute_with_value_error() {
    let input = parse_input(
        r#"
        #[derive(Node)]
        #[node_type = "test_node"]
        struct TestNode {
            #[id = "value"]
            node_id: String,

            #[attr]
            content: String,
        }
        "#,
    );
    let result = AttributeParser::parse_node_attributes(&input);
    assert!(result.is_err());
    if let Err(error) = result {
        let error_msg = format!("{error:?}");
        assert!(error_msg.contains("不支持赋值"));
    }
}

#[test]
fn test_complete_parsing_with_id_and_attr_fields() {
    let input = parse_input(
        r#"
        #[derive(Node)]
        #[node_type = "complex_node"]
        #[marks = "bold italic"]
        #[content = "text*"]
        struct ComplexNode {
            #[id]
            node_id: String,

            #[attr]
            title: String,

            #[attr(default = "default content")]
            content: String,

            #[attr]
            optional_field: Option<String>,

            internal_data: Vec<u8>,
        }
        "#,
    );
    let config = AttributeParser::parse_node_attributes(&input).unwrap();
    assert_eq!(config.node_type, Some("complex_node".to_string()));
    assert_eq!(config.marks, Some("bold italic".to_string()));
    assert_eq!(config.content, Some("text*".to_string()));

    assert!(config.id_field.is_some());
    let id_field = config.id_field.as_ref().unwrap();
    assert_eq!(id_field.name, "node_id");
    assert_eq!(id_field.type_text, "String");

    assert_eq!(config.attr_fields.len(), 3);
    let title_field = config.attr_fields.iter().find(|f| f.name == "title").unwrap();
    assert_eq!(title_field.type_text, "String");
    assert!(!title_field.has_default_value());

    let content_field = config.attr_fields.iter().find(|f| f.name == "content").unwrap();
    assert_eq!(content_field.type_text, "String");
    assert!(content_field.has_default_value());
    assert_eq!(content_field.get_default_value().unwrap().raw_value, "default content");

    let optional_field = config.attr_fields.iter().find(|f| f.name == "optional_field").unwrap();
    assert_eq!(optional_field.type_text, "Option<String>");
    assert!(optional_field.is_optional);
    assert!(!optional_field.has_default_value());
}

#[test]
fn test_parse_field_attr_error_handling() {
    let field = parse_field("#[attr] #[attr(default = \"test\")] content: String");
    let result = AttributeParser::parse_field_attr_attribute(&field, 0);
    assert!(result.is_err());

    let field = parse_field("#[attr = \"value\"] content: String");
    let result = AttributeParser::parse_field_attr_attribute(&field, 0);
    assert!(result.is_err());
}

#[test]
fn test_extract_value_from_expr() {
    assert_eq!(AttributeParser::extract_value_from_expr(&parse_expr("\"hello\"")), "hello");
    assert_eq!(AttributeParser::extract_value_from_expr(&parse_expr("42")), "42");
    assert_eq!(AttributeParser::extract_value_from_expr(&parse_expr("3.14")), "3.14");
    assert_eq!(AttributeParser::extract_value_from_expr(&parse_expr("true")), "true");
    assert_eq!(AttributeParser::extract_value_from_expr(&parse_expr("false")), "false");
    assert_eq!(AttributeParser::extract_value_from_expr(&parse_expr("null")), "null");
    assert_eq!(AttributeParser::extract_value_from_expr(&parse_expr("-42")), "-42");
}

#[test]
fn test_complete_field_parsing_with_defaults() {
    let input = parse_input(
        r#"
        #[derive(Node)]
        #[node_type = "test_node"]
        struct TestNode {
            #[attr]
            simple_field: String,

            #[attr(default = "default value")]
            field_with_default: String,

            #[attr(default = 42)]
            numeric_field: i32,

            #[attr(default = true)]
            boolean_field: bool,

            regular_field: String,
        }
        "#,
    );
    let config = AttributeParser::parse_node_attributes(&input).unwrap();
    assert_eq!(config.attr_fields.len(), 4);

    let simple_field =
        config.attr_fields.iter().find(|f| f.name == "simple_field").expect("应该找到 simple_field");
    assert!(!simple_field.has_default_value());

    let field_with_default = config
        .attr_fields
        .iter()
        .find(|f| f.name == "field_with_default")
        .expect("应该找到 field_with_default");
    assert!(field_with_default.has_default_value());
    assert_eq!(field_with_default.get_default_value().unwrap().raw_value, "default value");

    let numeric_field =
        config.attr_fields.iter().find(|f| f.name == "numeric_field").expect("应该找到 numeric_field");
    assert!(numeric_field.has_default_value());
    assert_eq!(numeric_field.get_default_value().unwrap().raw_value, "42");

    let boolean_field =
        config.attr_fields.iter().find(|f| f.name == "boolean_field").expect("应该找到 boolean_field");
    assert!(boolean_field.has_default_value());
    assert_eq!(boolean_field.get_default_value().unwrap().raw_value, "true");
}

// --------------------------------------------------------------- default values

#[test]
fn test_parse_string_default() {
    let result = parse_default("hello world");
    assert!(result.is_ok());
    let default_value = result.unwrap();
    assert_eq!(default_value.raw_value, "hello world");
    assert!(matches!(default_value.value_type, DefaultValueType::String(ref s) if s == "hello world"));
    assert!(!default_value.is_json);
    assert_eq!(default_value.type_label(), "String");
    assert!(default_value.is_string());
}

#[test]
fn test_parse_integer_default() {
    let result = parse_default("42");
    assert!(result.is_ok());
    let default_value = result.unwrap();
    assert_eq!(default_value.raw_value, "42");
    assert!(matches!(default_value.value_type, DefaultValueType::Integer(42)));
    assert!(!default_value.is_json);
    assert_eq!(default_value.type_label(), "Integer");
    assert!(default_value.is_numeric());
}

#[test]
fn test_parse_negative_integer_default() {
    let result = parse_default("-100");
    assert!(result.is_ok());
    let default_value = result.unwrap();
    assert!(matches!(default_value.value_type, DefaultValueType::Integer(-100)));
    assert!(default_value.is_numeric());
}

#[test]
fn test_parse_float_default() {
    let result = parse_default("3.14159");
    assert!(result.is_ok());
    let default_value = result.unwrap();
    assert_eq!(default_value.raw_value, "3.14159");
    assert!(
        matches!(default_value.value_type, DefaultValueType::Float(ref f) if (float_value(f) - 3.14159).abs() < f64::EPSILON)
    );
    assert!(!default_value.is_json);
    assert_eq!(default_value.type_label(), "Float");
    assert!(default_value.is_numeric());
}

#[test]
fn test_parse_boolean_default() {
    let result = parse_default("true");
    assert!(result.is_ok());
    let default_value = result.unwrap();
    assert!(matches!(default_value.value_type, DefaultValueType::Boolean(true)));
    assert_eq!(default_value.type_label(), "Boolean");
    assert!(default_value.is_boolean());

    let result = parse_default("false");
    assert!(result.is_ok());
    let default_value = result.unwrap();
    assert!(matches!(default_value.value_type, DefaultValueType::Boolean(false)));
    assert!(default_value.is_boolean());
}

#[test]
fn test_parse_null_default() {
    let result = parse_default("null");
    assert!(result.is_ok());
    let default_value = result.unwrap();
    assert!(matches!(default_value.value_type, DefaultValueType::Null));
    assert_eq!(default_value.type_label(), "Null");
    assert!(default_value.is_null());
}

#[test]
fn test_parse_json_object_default() {
    let json_str = r#"{"key": "value", "number": 123, "nested": {"inner": true}}"#;
    let result = parse_default(json_str);
    assert!(result.is_ok());
    let default_value = result.unwrap();
    assert_eq!(default_value.raw_value, json_str);
    assert!(default_value.is_json);
    assert_eq!(default_value.type_label(), "Json");
    if let DefaultValueType::Json(text) = &default_value.value_type {
        let json_value = json_value(text);
        assert_eq!(json_value["key"], "value");
        assert_eq!(json_value["number"], 123);
        assert_eq!(json_value["nested"]["inner"], true);
    } else {
        panic!("期望 JSON 类型");
    }
}

#[test]
fn test_parse_json_array_default() {
    let json_str = r#"["item1", "item2", {"key": "value"}]"#;
    let result = parse_default(json_str);
    assert!(result.is_ok());
    let default_value = result.unwrap();
    assert!(default_value.is_json);
    if let DefaultValueType::Json(text) = &default_value.value_type {
        let json_value = json_value(text);
        assert!(json_value.is_array());
        let array = json_value.as_array().unwrap();
        assert_eq!(array.len(), 3);
        assert_eq!(array[0], "item1");
        assert_eq!(array[1], "item2");
        assert_eq!(array[2]["key"], "value");
    } else {
        panic!("期望 JSON 类型");
    }
}

#[test]
fn test_parse_invalid_json() {
    let invalid_json = r#"{"invalid": json}"#;
    let result = parse_default(invalid_json);
    assert!(result.is_err());
    if let Err(MacroError::ParseError { message, .. }) = result {
        assert!(message.contains("JSON 解析失败"));
    } else {
        panic!("期望 ParseError");
    }
}

#[test]
fn test_parse_empty_string() {
    let result = parse_default("");
    assert!(result.is_ok());
    let default_value = result.unwrap();
    assert!(matches!(default_value.value_type, DefaultValueType::String(ref s) if s.is_empty()));
}

#[test]
fn test_parse_whitespace_string() {
    let result = parse_default("   ");
    assert!(result.is_ok());
    let default_value = result.unwrap();
    assert!(matches!(default_value.value_type, DefaultValueType::String(ref s) if s.is_empty()));
}

#[test]
fn test_is_json_format() {
    assert!(DefaultValueParser::is_json_format(r#"{"key": "value"}"#));
    assert!(DefaultValueParser::is_json_format(r#"["item1", "item2"]"#));
    assert!(DefaultValueParser::is_json_format("{}"));
    assert!(DefaultValueParser::is_json_format("[]"));
    assert!(DefaultValueParser::is_json_format("  {  }  "));

    assert!(!DefaultValueParser::is_json_format("simple string"));
    assert!(!DefaultValueParser::is_json_format("42"));
    assert!(!DefaultValueParser::is_json_format("true"));
    assert!(!DefaultValueParser::is_json_format("{"));
    assert!(!DefaultValueParser::is_json_format("}"));
    assert!(!DefaultValueParser::is_json_format(""));
    assert!(!DefaultValueParser::is_json_format("a"));
}

#[test]
fn test_parse_complex_numbers() {
    let result = parse_default("0x42");
    assert!(result.is_ok());
    assert!(matches!(result.unwrap().value_type, DefaultValueType::String(_)));

    let result = parse_default("1.23e-4");
    assert!(result.is_ok());
    assert!(matches!(result.unwrap().value_type, DefaultValueType::Float(_)));

    let result = parse_default("999999999999999999999");
    assert!(result.is_ok());
    let default_value = result.unwrap();
    assert!(matches!(
        default_value.value_type,
        DefaultValueType::Integer(_) | DefaultValueType::Float(_) | DefaultValueType::String(_)
    ));
}

#[test]
fn test_parse_unicode_string() {
    let unicode_str = "你好世界 🦀";
    let result = parse_default(unicode_str);
    assert!(result.is_ok());
    let default_value = result.unwrap();
    assert!(matches!(default_value.value_type, DefaultValueType::String(ref s) if s == unicode_str));
}

#[test]
fn test_parse_json_like_strings() {
    let result = parse_default("{incomplete");
    assert!(result.is_ok());
    assert!(matches!(result.unwrap().value_type, DefaultValueType::String(_)));

    let result = parse_default("{'key': 'value'}");
    assert!(result.is_err());
}

// --------------------------------------------------------------- field analyzer

#[test]
fn test_analyze_basic_field_type() {
    let type_info = FieldAnalyzer::analyze_field_type(&parse_type("String"));
    assert_eq!(type_info.simple_name, "String");
    assert!(!type_info.is_optional);
    assert!(type_info.is_supported);
    assert!(type_info.inner_type.is_none());
}

#[test]
fn test_analyze_option_field_type() {
    let type_info = FieldAnalyzer::analyze_field_type(&parse_type("Option<i32>"));
    assert_eq!(type_info.simple_name, "Option<i32>");
    assert!(type_info.is_optional);
    assert!(type_info.is_supported);
    assert!(type_info.inner_type.is_some());
    let inner_type = type_info.inner_type.unwrap();
    assert_eq!(inner_type.simple_name, "i32");
    assert!(!inner_type.is_optional);
    assert!(inner_type.is_supported);
}

#[test]
fn test_analyze_unsupported_field_type() {
    let type_info = FieldAnalyzer::analyze_field_type(&parse_type("Vec<String>"));
    assert!(!type_info.is_supported);
    assert!(!type_info.is_optional);
}

#[test]
fn test_analyze_complete_field() {
    let field = parse_field("#[attr] name: String");
    let result = FieldAnalyzer::analyze_field(&field, 0);
    assert!(result.is_ok());
    let analysis = result.unwrap();
    assert_eq!(analysis.name, "name");
    assert!(analysis.is_marked_as_attr);
    assert!(analysis.type_info.is_supported);
    assert!(!analysis.type_info.is_optional);
    assert!(analysis.attributes.contains(&"attr".to_string()));
}

#[test]
fn test_analyze_field_without_attr() {
    let field = parse_field("name: String");
    let result = FieldAnalyzer::analyze_field(&field, 0);
    assert!(result.is_ok());
    let analysis = result.unwrap();
    assert_eq!(analysis.name, "name");
    assert!(!analysis.is_marked_as_attr);
    assert!(analysis.attributes.is_empty());
}

fn three_fields() -> Vec<SynField> {
    vec![
        parse_field("#[attr] name: String"),
        parse_field("#[attr] age: Option<i32>"),
        parse_field("description: String"),
    ]
}

#[test]
fn test_analyze_multiple_fields() {
    let fields = three_fields();
    let result = FieldAnalyzer::analyze_fields(&fields);
    assert!(result.is_ok());
    let analyses = result.unwrap();
    assert_eq!(analyses.len(), 3);
    assert_eq!(analyses[0].name, "name");
    assert!(analyses[0].is_marked_as_attr);
    assert_eq!(analyses[1].name, "age");
    assert!(analyses[1].is_marked_as_attr);
    assert!(analyses[1].type_info.is_optional);
    assert_eq!(analyses[2].name, "description");
    assert!(!analyses[2].is_marked_as_attr);
}

#[test]
fn test_filter_attr_fields() {
    let fields = three_fields();
    let analyses = FieldAnalyzer::analyze_fields(&fields).unwrap();
    let attr_fields = FieldAnalyzer::filter_attr_fields(&analyses);
    assert_eq!(attr_fields.len(), 2);
    assert_eq!(attr_fields[0].name, "name");
    assert_eq!(attr_fields[1].name, "age");
}

#[test]
fn test_validate_field_type_support() {
    let field = parse_field("#[attr] name: String");
    let analysis = FieldAnalyzer::analyze_field(&field, 0).unwrap();
    assert!(FieldAnalyzer::validate_field_type_support(&analysis).is_ok());

    let field = parse_field("#[attr] data: Vec<String>");
    let analysis = FieldAnalyzer::analyze_field(&field, 0).unwrap();
    assert!(FieldAnalyzer::validate_field_type_support(&analysis).is_err());
}

#[test]
fn test_field_type_info_helpers() {
    let type_info = FieldAnalyzer::analyze_field_type(&parse_type("String"));
    assert!(type_info.is_string_type());
    assert!(!type_info.is_numeric_type());

    let type_info = FieldAnalyzer::analyze_field_type(&parse_type("i32"));
    assert!(!type_info.is_string_type());
    assert!(type_info.is_numeric_type());

    let type_info = FieldAnalyzer::analyze_field_type(&parse_type("Option<String>"));
    assert!(type_info.is_string_type());
    assert!(!type_info.is_numeric_type());
    assert_eq!(type_info.base_type_name(), "String");
}

#[test]
fn test_field_attribute_validation() {
    let field = parse_field("#[attr] name: String");
    let analysis = FieldAnalyzer::analyze_field(&field, 0).unwrap();
    assert!(analysis.validate_as_attribute().is_ok());

    let field = parse_field("name: String");
    let analysis = FieldAnalyzer::analyze_field(&field, 0).unwrap();
    assert!(analysis.validate_as_attribute().is_err());
}

#[test]
fn test_field_display_info() {
    let field = parse_field("#[attr] name: Option<String>");
    let analysis = FieldAnalyzer::analyze_field(&field, 0).unwrap();
    let display = analysis.display_info();
    assert!(display.contains("name"));
    assert!(display.contains("Option<String>"));
    assert!(display.contains("可选"));
    assert!(display.contains("带属性标记"));
    assert!(display.contains("支持"));
}

#[test]
fn test_invalid_attr_attribute_formats() {
    let field = parse_field("#[attr] name: String");
    let result = FieldAnalyzer::analyze_field(&field, 0);
    assert!(result.is_ok());
    let analysis = result.unwrap();
    assert!(analysis.is_marked_as_attr);
}

// ------------------------------------------------------------------ validation

#[test]
fn test_valid_node_config_validation() {
    let mut config = NodeConfig::default();
    config.node_type = Some("paragraph".to_string());
    let result = Validator::validate_node_config(&config);
    assert!(result.is_ok());
}

#[test]
fn test_missing_required_node_attribute() {
    let config = NodeConfig::default();
    let result = Validator::validate_node_config(&config);
    assert!(result.is_err());
    if let Err(MacroError::ValidationError { message, .. }) = result {
        assert!(message.contains("node_type"));
    } else {
        panic!("期望 ValidationError");
    }
}

#[test]
fn test_valid_mark_config_validation() {
    let mut config = MarkConfig::default();
    config.mark_type = Some("bold".to_string());
    let result = Validator::validate_mark_config(&config);
    assert!(result.is_ok());
}

#[test]
fn test_missing_required_mark_attribute() {
    let config = MarkConfig::default();
    let result = Validator::validate_mark_config(&config);
    assert!(result.is_err());
    if let Err(MacroError::ValidationError { message, .. }) = result {
        assert!(message.contains("mark_type"));
    } else {
        panic!("期望 ValidationError");
    }
}

#[test]
fn test_invalid_identifier_validation() {
    let mut config = NodeConfig::default();
    config.node_type = Some("invalid-identifier".to_string());
    let result = Validator::validate_node_config(&config);
    assert!(result.is_err());
}

#[test]
fn test_marks_list_validation() {
    let mut config = NodeConfig::default();
    config.node_type = Some("paragraph".to_string());
    config.marks = Some("bold italic".to_string());
    assert!(Validator::validate_node_config(&config).is_ok());

    config.marks = Some("".to_string());
    assert!(Validator::validate_node_config(&config).is_err());

    config.marks = Some("bold bold".to_string());
    assert!(Validator::validate_node_config(&config).is_err());
}

#[test]
fn test_content_expression_validation() {
    let mut config = NodeConfig::default();
    config.node_type = Some("paragraph".to_string());

    config.content = Some("text*".to_string());
    assert!(Validator::validate_node_config(&config).is_ok());

    config.content = Some("".to_string());
    assert!(Validator::validate_node_config(&config).is_err());

    config.content = Some("text<invalid>".to_string());
    assert!(Validator::validate_node_config(&config).is_err());
}

#[test]
fn test_field_analyses_validation() {
    let fields = vec![parse_field("#[attr] name: String"), parse_field("#[attr] age: Option<i32>")];
    let analyses = FieldAnalyzer::analyze_fields(&fields).unwrap();
    let result = Validator::validate_field_analyses(&analyses);
    assert!(result.is_ok());
}

#[test]
fn test_unsupported_field_type_validation() {
    let field = parse_field("#[attr] data: Vec<String>");
    let analysis: FieldAnalysis = FieldAnalyzer::analyze_field(&field, 0).unwrap();
    let result = Validator::validate_field_analyses(&[analysis]);
    assert!(result.is_err());
    if let Err(MacroError::UnsupportedFieldType { .. }) = result {
    } else {
        panic!("期望 UnsupportedFieldType 错误");
    }
}

#[test]
fn test_field_name_validation() {
    assert!(Validator::validate_field_name("valid_name").is_ok());
    assert!(Validator::validate_field_name("").is_err());
    assert!(Validator::validate_field_name("invalid-name").is_err());
}

#[test]
fn test_length_limit_validation() {
    let mut config = NodeConfig::default();
    let long_name = "a".repeat(limits::MAX_IDENTIFIER_LENGTH + 1);
    config.node_type = Some(long_name);
    let result = Validator::validate_node_config(&config);
    assert!(result.is_err());
}

#[test]
fn test_bracket_matching_validation() {
    assert!(Validator::validate_content_expression_syntax("text(content)").is_ok());
    assert!(Validator::validate_content_expression_syntax("text(content").is_err());
    assert!(Validator::validate_content_expression_syntax("text([{content}])").is_ok());
}

#[test]
fn test_complete_validation_flow() {
    let input = parse_input(
        r#"
        #[derive(Node)]
        #[node_type = "paragraph"]
        #[marks = "bold italic"]
        #[content = "text*"]
        struct ParagraphNode {
            #[attr]
            content: String,

            #[attr]
            alignment: Option<String>,

            private_data: i32,
        }
        "#,
    );
    let config = AttributeParser::parse_node_attributes(&input).unwrap();
    let result = Validator::validate_node_config(&config);
    assert!(result.is_ok());
}

// -------------------------------------------------------------------- own tests

fn validation_message(r: Result<(), MacroError>) -> String {
    match r {
        Err(MacroError::ValidationError { message, .. }) => message,
        other => panic!("expected a validation error, got {other:?}"),
    }
}

#[test]
fn parse_errors_point_at_their_place() {
    let input = parse_input(
        r#"
        #[node_type = 5]
        struct S { #[attr] a: String }
        "#,
    );
    match AttributeParser::parse_node_attributes(&input) {
        Err(MacroError::InvalidAttributeValue { attribute, value, reason, span }) => {
            assert_eq!(attribute, "node_type");
            assert_eq!(value, "非字符串值");
            assert_eq!(reason, "属性值必须是字符串字面量");
            assert_eq!(span, Some(SpanRef::StructAttr(0)));
        },
        other => panic!("unexpected {other:?}"),
    }
    let input = parse_input("#[node_type(x)] struct S;");
    match AttributeParser::parse_node_attributes(&input) {
        Err(MacroError::ParseError { message, span }) => {
            assert_eq!(message, "属性格式错误，期望 key = \"value\" 格式");
            assert_eq!(span, Some(SpanRef::StructAttr(0)));
        },
        other => panic!("unexpected {other:?}"),
    }
    let input = parse_input("#[doc = \"d\"] #[node_type = foo] struct S;");
    match AttributeParser::parse_node_attributes(&input) {
        Err(MacroError::InvalidAttributeValue { value, span, .. }) => {
            assert_eq!(value, "复杂表达式");
            assert_eq!(span, Some(SpanRef::StructAttr(1)));
        },
        other => panic!("unexpected {other:?}"),
    }
    let input = parse_input("#[mark_type = \"m\"] union U { a: u8 }");
    match AttributeParser::parse_mark_attributes(&input) {
        Err(MacroError::ParseError { message, span }) => {
            assert_eq!(message, "不支持联合体类型，请使用结构体");
            assert_eq!(span, Some(SpanRef::Input));
        },
        other => panic!("unexpected {other:?}"),
    }
}

#[test]
fn later_struct_attribute_wins_and_unknown_ones_are_ignored() {
    let input = parse_input(
        r#"
        #[node_type = "first"]
        #[serde(rename = "x")]
        #[node_type = "second"]
        #[desc = "说明"]
        struct S;
        "#,
    );
    let config = AttributeParser::parse_node_attributes(&input).unwrap();
    assert_eq!(config.node_type, Some("second".to_string()));
    assert_eq!(config.desc, Some("说明".to_string()));
    assert!(config.attr_fields.is_empty());
    assert!(config.id_field.is_none());
}

#[test]
fn attr_argument_errors() {
    let field = parse_field("#[attr(other = 1)] a: i32");
    match AttributeParser::parse_field_attr_attribute(&field, 3) {
        Err(MacroError::ParseError { message, span }) => {
            assert_eq!(message, "不支持的 attr 参数: other");
            assert_eq!(span, Some(SpanRef::Field(3)));
        },
        other => panic!("unexpected {other:?}"),
    }
    let field = parse_field("#[attr(default = 1, default = 2)] a: i32");
    match AttributeParser::parse_field_attr_attribute(&field, 0) {
        Err(MacroError::ParseError { message, .. }) => assert_eq!(message, "不能有多个 default 参数"),
        other => panic!("unexpected {other:?}"),
    }
    let field = parse_field("#[attr(flag)] a: i32");
    match AttributeParser::parse_field_attr_attribute(&field, 0) {
        Err(MacroError::ParseError { message, .. }) => {
            assert_eq!(message, "attr 参数必须是 name=value 形式，如 default=\"value\"")
        },
        other => panic!("unexpected {other:?}"),
    }
    let field = parse_field("#[attr(default = \"{\\\"a\\\": 1}\")] a: String");
    let (_, dv) = AttributeParser::parse_field_attr_attribute(&field, 0).unwrap();
    let dv = dv.unwrap();
    assert!(dv.is_json);
    assert_eq!(dv.span, Some(SpanRef::DefaultValue(0)));
    match dv.value_type {
        DefaultValueType::Json(text) => assert_eq!(text, "{\"a\":1}"),
        other => panic!("unexpected {other:?}"),
    }
}

#[test]
fn default_value_exact_forms() {
    let dv = parse_default("  -7  ").unwrap();
    assert_eq!(dv.raw_value, "  -7  ");
    assert!(matches!(dv.value_type, DefaultValueType::Integer(-7)));
    let dv = parse_default("2.5").unwrap();
    assert!(matches!(dv.value_type, DefaultValueType::Float(ref f) if f == "2.5f64"));
    let dv = parse_default(" text ").unwrap();
    assert!(matches!(dv.value_type, DefaultValueType::String(ref s) if s == "text"));
    let dv = parse_default("[1, 2]").unwrap();
    assert!(matches!(dv.value_type, DefaultValueType::Json(ref s) if s == "[1,2]"));
    assert_eq!(dv.type_label(), "Json");
    match DefaultValueParser::parse("{bad}", Some(SpanRef::DefaultValue(4)), None) {
        Err(MacroError::ParseError { message, span }) => {
            assert!(message.starts_with("默认值解析失败: JSON 解析失败: "));
            assert!(message.ends_with(" (问题值: '{bad}')"));
            assert_eq!(span, Some(SpanRef::DefaultValue(4)));
        },
        other => panic!("unexpected {other:?}"),
    }
}

#[test]
fn node_config_validation_messages() {
    let mut config = NodeConfig::default();
    assert_eq!(validation_message(config.validate()), "缺少必需的 node_type 属性");
    config.node_type = Some("p".to_string());
    config.marks = Some("  ".to_string());
    assert_eq!(validation_message(config.validate()), "marks 属性不能为空字符串");
    config.marks = Some("ok bad-one also-bad".to_string());
    assert_eq!(validation_message(config.validate()), "无效的标记名称: 'bad-one'");
    let mut mark = MarkConfig::default();
    mark.mark_type = Some("x y".to_string());
    assert_eq!(validation_message(mark.validate()), "无效的标记类型名称: 'x y'");
}

#[test]
fn validator_messages_and_limits() {
    let mut config = NodeConfig::default();
    config.node_type = Some("a".repeat(65));
    assert_eq!(
        validation_message(Validator::validate_node_config(&config)),
        format!("node_type '{}' 太长，最多允许 64 个字符", "a".repeat(65))
    );
    config.node_type = Some("a".repeat(64));
    assert!(Validator::validate_node_config(&config).is_ok());
    config.marks = Some("a b c d e f g h i j k".to_string());
    assert_eq!(
        validation_message(Validator::validate_node_config(&config)),
        "marks 列表太长，最多允许 10 个标记，当前有 11 个"
    );
    config.marks = Some("good 9bad".to_string());
    assert_eq!(
        validation_message(Validator::validate_node_config(&config)),
        "marks 列表中第 2 个标记 '9bad' 不是有效的标识符格式"
    );
    config.marks = Some("x y x".to_string());
    assert_eq!(
        validation_message(Validator::validate_node_config(&config)),
        "marks 列表中存在重复的标记: 'x'"
    );
    config.marks = None;
    config.content = Some("x".repeat(257));
    assert_eq!(
        validation_message(Validator::validate_node_config(&config)),
        "content 表达式太长，最多允许 256 个字符，当前有 257 个"
    );
    // the length is counted in bytes: 86 three-byte characters are 258 bytes
    config.content = Some("段".repeat(86));
    assert_eq!(
        validation_message(Validator::validate_node_config(&config)),
        "content 表达式太长，最多允许 256 个字符，当前有 258 个"
    );
}

#[test]
fn content_syntax_messages() {
    let msg = |s: &str| validation_message(Validator::validate_content_expression_syntax(s));
    assert_eq!(msg("a'b"), "content 表达式包含不允许的字符 '''");
    assert_eq!(msg("a<b>c\\"), "content 表达式包含不允许的字符 '<'");
    assert_eq!(msg("a)("), "content 表达式中的括号不匹配");
    assert_eq!(msg("]"), "content 表达式中的方括号不匹配");
    assert_eq!(msg("{}}"), "content 表达式中的花括号不匹配");
    assert_eq!(msg("((a)"), "content 表达式中存在未闭合的括号");
    assert!(Validator::validate_content_expression_syntax("(a|b)+ [c]{2}").is_ok());
}

#[test]
fn duplicate_field_names_are_refused() {
    let mut config = NodeConfig::default();
    config.node_type = Some("p".to_string());
    let f = |name: &str, i: usize| {
        FieldConfig::new(name.to_string(), "String".to_string(), false, true, parse_field(&format!("{name}: String")), i)
    };
    config.attr_fields = vec![f("a", 0), f("b", 1), f("a", 2)];
    match Validator::validate_node_config(&config) {
        Err(MacroError::ValidationError { message, span }) => {
            assert_eq!(message, "存在重复的字段名称: 'a'");
            assert_eq!(span, Some(SpanRef::Field(2)));
        },
        other => panic!("unexpected {other:?}"),
    }
    let mut bad_type = f("c", 5);
    bad_type.field = parse_field("c: Vec<String>");
    bad_type.type_text = "Vec<String>".to_string();
    config.attr_fields = vec![bad_type];
    match Validator::validate_node_config(&config) {
        Err(MacroError::UnsupportedFieldType { field_name, field_type, span }) => {
            assert_eq!(field_name, "c");
            assert_eq!(field_type, "Vec<String>");
            assert_eq!(span, Some(SpanRef::FieldType(5)));
        },
        other => panic!("unexpected {other:?}"),
    }
}

#[test]
fn accepted_configuration_passes_both_checks() {
    let input = parse_input(
        r#"
        #[node_type = "doc"]
        #[marks = "b i"]
        #[content = "block+"]
        struct D { #[attr] a: String, #[attr] b: Option<i64> }
        "#,
    );
    let config = AttributeParser::parse_node_attributes(&input).unwrap();
    assert!(Validator::validate_node_config(&config).is_ok());
    assert!(config.validate().is_ok());
}

#[test]
fn field_analysis_details() {
    let field = parse_field("#[attr(x)] a: String");
    match FieldAnalyzer::analyze_field(&field, 1) {
        Err(MacroError::ParseError { message, span }) => {
            assert_eq!(message, "#[attr] 不支持参数，请使用简单的 #[attr] 标记");
            assert_eq!(span, Some(SpanRef::FieldAttr(1, 0)));
        },
        other => panic!("unexpected {other:?}"),
    }
    let info = FieldAnalyzer::analyze_field_type(&parse_type("Option<Option<u8>>"));
    assert!(info.is_optional);
    assert!(info.is_supported);
    assert_eq!(info.base_type_name(), "u8");
    assert!(info.is_numeric_type());
    assert_eq!(info.codegen_type_name(), "Option<Option<u8>>");
    let field = parse_field("#[serde(x)] #[attr] a: Vec<String>");
    let analysis = FieldAnalyzer::analyze_field(&field, 0).unwrap();
    assert_eq!(analysis.attributes, vec!["serde".to_string(), "attr".to_string()]);
    assert_eq!(
        analysis.display_info(),
        "字段 'a': Vec<String> (必需, 带属性标记, 不支持)"
    );
    match FieldAnalyzer::validate_all_field_types(&[analysis]) {
        Err(MacroError::UnsupportedFieldType { field_name, field_type, span }) => {
            assert_eq!(field_name, "a");
            assert_eq!(field_type, "Vec<String>");
            assert_eq!(span, Some(SpanRef::Field(0)));
        },
        other => panic!("unexpected {other:?}"),
    }
}

#[test]
fn default_values_compare_by_value_not_by_place() {
    let a = DefaultValueParser::parse("42", Some(SpanRef::DefaultValue(0)), None).unwrap();
    let b = DefaultValueParser::parse("42", Some(SpanRef::DefaultValue(3)), None).unwrap();
    let c = DefaultValueParser::parse("43", Some(SpanRef::DefaultValue(0)), None).unwrap();
    let d = DefaultValueParser::parse("\"42\"", Some(SpanRef::DefaultValue(0)), None).unwrap();
    assert!(a == b);
    assert!(a != c);
    assert!(a != d);
}

#[test]
fn str_references_are_string_types() {
    assert!(FieldAnalyzer::analyze_field_type(&parse_type("&str")).is_string_type());
    assert!(FieldAnalyzer::analyze_field_type(&parse_type("Option<&str>")).is_string_type());
    assert!(FieldAnalyzer::analyze_field_type(&parse_type("str")).is_string_type());
    assert!(!FieldAnalyzer::analyze_field_type(&parse_type("&u8")).is_string_type());
}

#[test]
fn integer_default_reads_as_its_value() {
    let v = DefaultValueParser::parse(" 42 ", None, None).unwrap();
    assert!(matches!(v.value_type, DefaultValueType::Integer(42)));
    let v = DefaultValueParser::parse("-7", None, None).unwrap();
    assert!(matches!(v.value_type, DefaultValueType::Integer(-7)));
}

#[test]
fn integer_defaults_follow_i64_parsing() {
    let kind = |raw: &str| DefaultValueParser::parse(raw, None, None).unwrap().value_type;
    assert!(matches!(kind("+5"), DefaultValueType::Integer(5)));
    assert!(matches!(kind("-9223372036854775808"), DefaultValueType::Integer(i64::MIN)));
    assert!(matches!(kind("9223372036854775807"), DefaultValueType::Integer(i64::MAX)));
    assert!(matches!(kind("9223372036854775808"), DefaultValueType::String(_)));
    assert!(matches!(kind("-"), DefaultValueType::String(_)));
    assert!(matches!(kind("1_000"), DefaultValueType::String(_)));
    assert!(matches!(kind("٣"), DefaultValueType::String(_)));
}
