use mf_derive::parser::attribute_parser::AttributeParser;
use mf_derive::syntax::{
    SynAttribute, SynData, SynDeriveInput, SynExpr, SynField, SynFields, SynGenericArgument,
    SynLit, SynMeta, SynNestedMeta, SynPathArguments, SynPathSegment, SynType, SynTypeKind,
};
use quote::ToTokens;
use syn::parse::Parser;

fn tokens_of<T: ToTokens>(t: &T) -> String {
    t.to_token_stream().to_string()
}

fn model_type(ty: &syn::Type) -> SynType {
    let kind = match ty {
        syn::Type::Path(p) => SynTypeKind::Path(
            p.path
                .segments
                .iter()
                .map(|seg| SynPathSegment {
                    ident: seg.ident.to_string(),
                    arguments: match &seg.arguments {
                        syn::PathArguments::None => SynPathArguments::Bare,
                        syn::PathArguments::AngleBracketed(a) => SynPathArguments::AngleBracketed(
                            a.args
                                .iter()
                                .map(|g| match g {
                                    syn::GenericArgument::Type(t) => {
                                        SynGenericArgument::Type(model_type(t))
                                    },
                                    _ => SynGenericArgument::Other,
                                })
                                .collect(),
                        ),
                        syn::PathArguments::Parenthesized(_) => SynPathArguments::Parenthesized,
                    },
                })
                .collect(),
        ),
        syn::Type::Tuple(t) if t.elems.is_empty() => SynTypeKind::UnitTuple,
        _ => SynTypeKind::Other,
    };
    SynType { tokens: tokens_of(ty), kind }
}

fn model_expr(e: &syn::Expr) -> SynExpr {
    match e {
        syn::Expr::Lit(l) => SynExpr::Lit(match &l.lit {
            syn::Lit::Str(s) => SynLit::Str(s.value()),
            syn::Lit::Int(i) => SynLit::Int(i.base10_digits().to_string()),
            syn::Lit::Float(f) => SynLit::Float(f.base10_digits().to_string()),
            syn::Lit::Bool(b) => SynLit::Bool(b.value),
            _ => SynLit::Other(tokens_of(l)),
        }),
        syn::Expr::Path(p) => SynExpr::Path {
            ident: p.path.get_ident().map(|i| i.to_string()),
            tokens: tokens_of(p),
        },
        syn::Expr::Unary(u) => SynExpr::Unary {
            is_neg: matches!(u.op, syn::UnOp::Neg(_)),
            expr: Box::new(model_expr(&u.expr)),
            tokens: tokens_of(u),
        },
        _ => SynExpr::Other { tokens: tokens_of(e) },
    }
}

fn float_literal_of(value: &SynExpr) -> Option<String> {
    let text = AttributeParser::extract_value_from_expr(value);
    match text.trim().parse::<f64>() {
        Ok(f) if f.is_finite() => Some(proc_macro2::Literal::f64_suffixed(f).to_string()),
        _ => None,
    }
}

fn model_nested(m: &syn::Meta) -> SynNestedMeta {
    match m {
        syn::Meta::NameValue(nv) => {
            let value = model_expr(&nv.value);
            let float_literal = float_literal_of(&value);
            SynNestedMeta::NameValue {
                path_ident: nv.path.get_ident().map(|i| i.to_string()),
                value,
                float_literal,
            }
        },
        _ => SynNestedMeta::Other,
    }
}

fn model_attr(a: &syn::Attribute) -> SynAttribute {
    let meta = match &a.meta {
        syn::Meta::Path(_) => SynMeta::Path,
        syn::Meta::List(l) => SynMeta::List(
            l.parse_args_with(
                syn::punctuated::Punctuated::<syn::Meta, syn::token::Comma>::parse_terminated,
            )
            .map(|p| p.iter().map(model_nested).collect())
            .map_err(|e| e.to_string()),
        ),
        syn::Meta::NameValue(nv) => SynMeta::NameValue(model_expr(&nv.value)),
    };
    SynAttribute { path_ident: a.path().get_ident().map(|i| i.to_string()), meta }
}

fn model_field(f: &syn::Field) -> SynField {
    SynField {
        ident: f.ident.as_ref().map(|i| i.to_string()),
        ty: model_type(&f.ty),
        attrs: f.attrs.iter().map(model_attr).collect(),
    }
}

fn model_input(input: &syn::DeriveInput) -> SynDeriveInput {
    let data = match &input.data {
        syn::Data::Struct(s) => SynData::Struct(match &s.fields {
            syn::Fields::Named(n) => SynFields::Named(n.named.iter().map(model_field).collect()),
            syn::Fields::Unnamed(_) => SynFields::Unnamed,
            syn::Fields::Unit => SynFields::Unit,
        }),
        syn::Data::Enum(_) => SynData::Enum,
        syn::Data::Union(_) => SynData::Union,
    };
    SynDeriveInput {
        ident: input.ident.to_string(),
        attrs: input.attrs.iter().map(model_attr).collect(),
        data,
    }
}

fn parse_input(src: &str) -> SynDeriveInput {
    model_input(&syn::parse_str::<syn::DeriveInput>(src).expect("derive input"))
}

fn parse_type(src: &str) -> SynType {
    model_type(&syn::parse_str::<syn::Type>(src).expect("type"))
}

fn parse_field(src: &str) -> SynField {
    model_field(&syn::Field::parse_named.parse_str(src).expect("field"))
}

fn parse_expr(src: &str) -> SynExpr {
    model_expr(&syn::parse_str::<syn::Expr>(src).expect("expr"))
}

use mf_derive::common::error::{MacroError, MacroErrorV};
use mf_derive::syntax::{SynFieldV, SynTypeV};
use mf_derive::converter::builtin_converters::{
    get_all_builtin_converters, BooleanConverter, Converter, NumericConverter, SpecialTypeConverter,
    StringConverter,
};
use mf_derive::converter::converter_registry::{
    ConverterRegistry, ConverterRegistryImpl, GlobalConverterRegistry,
};
use mf_derive::converter::type_converter::{BuiltinTypeConverter, SpecText, TypeConverter};
use mf_derive::converter::utils::{
    convert_field, generate_supported_types_hint, get_supported_types, is_type_supported,
};

// ------------------------------------------------------------- type converter

#[test]
fn test_builtin_converter_creation() {
    let converter = BuiltinTypeConverter::new();
    assert_eq!(converter.name(), "BuiltinTypeConverter");
    assert_eq!(converter.priority(), 100);
}

#[test]
fn test_builtin_converter_default() {
    let converter = BuiltinTypeConverter;
    assert_eq!(converter.name(), "BuiltinTypeConverter");
}

#[test]
fn test_builtin_converter_supports_type() {
    let converter = BuiltinTypeConverter::new();
    assert!(converter.supports_type(&parse_type("String")));
    assert!(converter.supports_type(&parse_type("i32")));
    assert!(converter.supports_type(&parse_type("bool")));
    assert!(converter.supports_type(&parse_type("Option<String>")));
    assert!(converter.supports_type(&parse_type("Option<i32>")));
    assert!(!converter.supports_type(&parse_type("Vec<String>")));
    assert!(!converter.supports_type(&parse_type("HashMap<String, i32>")));
}

#[test]
fn test_builtin_converter_unsupported_type() {
    let converter = BuiltinTypeConverter::new();
    let unsupported_field = parse_field("data: Vec<String>");
    let result = converter.convert_field_to_json_value(&unsupported_field, 0);
    assert!(result.is_err());
    if let Err(MacroError::UnsupportedFieldType { field_name, field_type, .. }) = result {
        assert_eq!(field_name, "data");
        assert!(field_type.contains("Vec"));
    } else {
        panic!("期望 UnsupportedFieldType 错误");
    }
}

#[test]
fn test_builtin_converter_anonymous_field() {
    let converter = BuiltinTypeConverter::new();
    let anonymous_field = {
        let f = syn::Field::parse_unnamed.parse_str("String").expect("field");
        model_field(&f)
    };
    let result = converter.convert_field_to_json_value(&anonymous_field, 0);
    assert!(result.is_err());
    if let Err(MacroError::UnsupportedFieldType { .. }) = result {
    } else if let Err(MacroError::ParseError { .. }) = result {
    } else {
        panic!("期望 UnsupportedFieldType 或 ParseError");
    }
}

#[test]
fn test_builtin_converter_consistency() {
    let converter = BuiltinTypeConverter::new();
    let test_types =
        vec!["String", "i32", "Option<String>", "Option<i32>", "Vec<String>", "HashMap<String, i32>"];
    for ty in test_types {
        let supports = converter.supports_type(&parse_type(ty));
        let field = parse_field(&format!("test_field: {ty}"));
        let conversion_result = converter.convert_field_to_json_value(&field, 0);
        if supports {
            assert!(conversion_result.is_ok(), "类型 {ty:?} 声称支持但转换失败");
        } else {
            assert!(conversion_result.is_err(), "类型 {ty:?} 声称不支持但转换成功");
        }
    }
}

// --------------------------------------------------------- builtin converters

#[test]
fn test_string_converter() {
    let converter = StringConverter::new();
    assert!(converter.supports_type(&parse_type("String")));
    assert!(converter.supports_type(&parse_type("&str")));
    assert!(converter.supports_type(&parse_type("Option<String>")));
    assert!(!converter.supports_type(&parse_type("i32")));
    assert_eq!(converter.name(), "StringConverter");
    assert_eq!(converter.priority(), 90);
}

#[test]
fn test_numeric_converter() {
    let converter = NumericConverter::new();
    assert!(converter.supports_type(&parse_type("i32")));
    assert!(converter.supports_type(&parse_type("f64")));
    assert!(converter.supports_type(&parse_type("Option<i32>")));
    assert!(!converter.supports_type(&parse_type("String")));
    assert_eq!(converter.name(), "NumericConverter");
    assert_eq!(converter.priority(), 95);
}

#[test]
fn test_boolean_converter() {
    let converter = BooleanConverter::new();
    assert!(converter.supports_type(&parse_type("bool")));
    assert!(converter.supports_type(&parse_type("Option<bool>")));
    assert!(!converter.supports_type(&parse_type("i32")));
    assert_eq!(converter.name(), "BooleanConverter");
    assert_eq!(converter.priority(), 85);
}

#[test]
fn test_special_type_converter() {
    let converter = SpecialTypeConverter::new();
    assert!(!converter.supports_type(&parse_type("Vec<String>")));
    assert!(!converter.supports_type(&parse_type("HashMap<String, i32>")));
    assert_eq!(converter.name(), "SpecialTypeConverter");
    assert_eq!(converter.priority(), 50);
}

#[test]
fn test_special_converter_error_handling() {
    let converter = SpecialTypeConverter::new();
    let field = parse_field("data: Vec<String>");
    let result = converter.convert_field_to_json_value(&field, 0);
    assert!(result.is_err());
    if let Err(MacroError::UnsupportedFieldType { field_name, field_type, .. }) = result {
        assert_eq!(field_name, "data");
        assert!(field_type.contains("Vec"));
    } else {
        panic!("期望 UnsupportedFieldType 错误");
    }
}

#[test]
fn test_get_all_builtin_converters() {
    let converters = get_all_builtin_converters();
    assert_eq!(converters.len(), 4);
    let names: Vec<_> = converters.iter().map(|c| c.name()).collect();
    assert!(names.contains(&"NumericConverter"));
    assert!(names.contains(&"StringConverter"));
    assert!(names.contains(&"BooleanConverter"));
    assert!(names.contains(&"SpecialTypeConverter"));
    for i in 0..converters.len() - 1 {
        assert!(converters[i].priority() >= converters[i + 1].priority(), "转换器未按优先级正确排序");
    }
}

#[test]
fn test_converter_defaults() {
    let string_converter = StringConverter::default();
    assert_eq!(string_converter.name(), "StringConverter");
    let numeric_converter = NumericConverter::default();
    assert_eq!(numeric_converter.name(), "NumericConverter");
    let boolean_converter = BooleanConverter::default();
    assert_eq!(boolean_converter.name(), "BooleanConverter");
    let special_converter = SpecialTypeConverter::default();
    assert_eq!(special_converter.name(), "SpecialTypeConverter");
}

#[test]
fn test_converter_type_coverage() {
    let converters = get_all_builtin_converters();
    let test_types = vec![
        ("String", true),
        ("i32", true),
        ("f64", true),
        ("bool", true),
        ("Option<String>", true),
        ("Option<i32>", true),
        ("Option<bool>", true),
        ("Vec<String>", false),
        ("HashMap<String, i32>", false),
    ];
    for (ty, should_be_supported) in test_types {
        let t = parse_type(ty);
        let supported = converters.iter().any(|c| c.supports_type(&t));
        assert_eq!(supported, should_be_supported, "类型 {:?} 的支持状态不正确", ty);
    }
}

// ------------------------------------------------------------------- registry

#[test]
fn test_registry_creation() {
    let registry: ConverterRegistryImpl = ConverterRegistryImpl::new();
    assert!(registry.converter_count() > 0);
    assert!(registry.find_converter_for_type(&parse_type("String")).is_some());
    assert!(registry.find_converter_for_type(&parse_type("i32")).is_some());
}

#[test]
fn test_converter_registration() {
    let mut registry: ConverterRegistryImpl = ConverterRegistryImpl::new();
    let initial_count = registry.converter_count();
    registry.register_converter(Converter::Builtin(BuiltinTypeConverter::new()));
    assert_eq!(registry.converter_count(), initial_count + 1);
}

#[test]
fn test_converter_priority_ordering() {
    let mut registry: ConverterRegistryImpl = ConverterRegistryImpl::new();
    registry.clear_converters();
    registry.register_converter(Converter::Text(StringConverter::new()));
    registry.register_converter(Converter::Numeric(NumericConverter::new()));
    let converter = registry.find_converter_for_type(&parse_type("i32")).unwrap();
    assert_eq!(converter.name(), "NumericConverter");
}

#[test]
fn test_unsupported_type_error() {
    let registry: ConverterRegistryImpl = ConverterRegistryImpl::new();
    let unsupported_field = parse_field("data: std::collections::BTreeMap<String, i32>");
    let result = registry.convert_field(&unsupported_field, 0);
    assert!(result.is_err());
    if let Err(MacroError::UnsupportedFieldType { field_name, .. }) = result {
        assert_eq!(field_name, "data");
    } else {
        panic!("期望 UnsupportedFieldType 错误");
    }
}

#[test]
fn test_clear_and_reload() {
    let mut registry: ConverterRegistryImpl = ConverterRegistryImpl::new();
    let initial_count = registry.converter_count();
    registry.clear_converters();
    assert_eq!(registry.converter_count(), 0);
    registry.reload_default_converters();
    assert_eq!(registry.converter_count(), initial_count);
}

#[test]
fn test_global_registry() {
    let mut global: ConverterRegistryImpl = ConverterRegistryImpl::new();
    let initial_count = GlobalConverterRegistry::converter_count(&global, None).unwrap();
    let result = GlobalConverterRegistry::register(
        &mut global,
        None,
        Converter::Builtin(BuiltinTypeConverter::new()),
    );
    assert!(result.is_ok());
    let new_count = GlobalConverterRegistry::converter_count(&global, None).unwrap();
    assert_eq!(new_count, initial_count + 1);
    let field = parse_field("test: String");
    let conversion_result = GlobalConverterRegistry::convert_field(&global, None, &field, 0);
    assert!(conversion_result.is_ok());
    GlobalConverterRegistry::reload_defaults(&mut global, None).unwrap();
}

#[test]
fn test_type_support_checking() {
    let global: ConverterRegistryImpl = ConverterRegistryImpl::new();
    assert!(GlobalConverterRegistry::supports_type(&global, None, &parse_type("String")).unwrap());
    assert!(GlobalConverterRegistry::supports_type(&global, None, &parse_type("i32")).unwrap());
    assert!(!GlobalConverterRegistry::supports_type(
        &global,
        None,
        &parse_type("std::collections::BTreeSet<String>")
    )
    .unwrap());
}

#[test]
fn test_registry_default() {
    let registry: ConverterRegistryImpl = ConverterRegistryImpl::default();
    assert!(registry.converter_count() > 0);
}

#[test]
fn test_converter_finding_accuracy() {
    let registry: ConverterRegistryImpl = ConverterRegistryImpl::new();
    for ty in ["String", "i32", "bool"] {
        let t = parse_type(ty);
        if let Some(converter) = registry.find_converter_for_type(&t) {
            assert!(converter.supports_type(&t), "找到的转换器应该支持该类型");
        } else {
            panic!("应该能找到支持 {:?} 的转换器", ty);
        }
    }
}

// ------------------------------------------------------------------ own tests

#[test]
fn registry_orders_by_priority_and_keeps_arrival_order_among_equals() {
    let mut registry: ConverterRegistryImpl = ConverterRegistryImpl::new();
    registry.clear_converters();
    registry.register_converter(Converter::Special(SpecialTypeConverter));
    registry.register_converter(Converter::Boolean(BooleanConverter));
    registry.register_converter(Converter::Builtin(BuiltinTypeConverter));
    registry.register_converter(Converter::Text(StringConverter));
    registry.register_converter(Converter::Builtin(BuiltinTypeConverter));
    assert_eq!(registry.converter_count(), 5);
    // the builtin converter (100) is found first for a string now
    let found = registry.find_converter_for_type(&parse_type("String")).unwrap();
    assert_eq!(found.name(), "BuiltinTypeConverter");
    // nothing handles a vector
    assert!(registry.find_converter_for_type(&parse_type("Vec<String>")).is_none());
}

#[test]
fn registry_conversion_text_and_errors() {
    let registry: ConverterRegistryImpl = ConverterRegistryImpl::new();
    let code = registry.convert_field(&parse_field("flag: Option<bool>"), 0).unwrap();
    assert!(code.starts_with("self . flag . as_ref ()"));
    let err = registry.convert_field(&parse_field("x: Vec<u8>"), 7).unwrap_err();
    match err {
        MacroError::UnsupportedFieldType { field_name, field_type, span } => {
            assert_eq!(field_name, "x");
            assert_eq!(field_type, "Vec<u8>");
            assert_eq!(span, Some(mf_derive::syntax::SpanRef::Field(7)));
        },
        other => panic!("unexpected {other:?}"),
    }
}

#[test]
fn global_registry_reports_lock_errors() {
    let mut global: ConverterRegistryImpl = ConverterRegistryImpl::new();
    let before = global.converter_count();
    let r = GlobalConverterRegistry::register(
        &mut global,
        Some("poisoned".to_string()),
        Converter::Text(StringConverter),
    );
    assert_eq!(r, Err("无法获取注册表写锁: poisoned".to_string()));
    assert_eq!(global.converter_count(), before);
    assert_eq!(
        GlobalConverterRegistry::converter_count(&global, Some("p".to_string())),
        Err("无法获取注册表读锁: p".to_string())
    );
    assert_eq!(
        GlobalConverterRegistry::clear_all(&mut global, Some("p".to_string())),
        Err("无法获取注册表写锁: p".to_string())
    );
    assert_eq!(global.converter_count(), before);
    assert!(GlobalConverterRegistry::clear_all(&mut global, None).is_ok());
    assert_eq!(global.converter_count(), 0);
    assert!(!is_type_supported(&global, None, &parse_type("String")));
    GlobalConverterRegistry::reload_defaults(&mut global, None).unwrap();
    assert!(is_type_supported(&global, None, &parse_type("String")));
    assert!(!is_type_supported(&global, Some("p".to_string()), &parse_type("String")));
    match convert_field(&global, Some("p".to_string()), &parse_field("a: String"), 0) {
        Err(MacroError::GenerationError { message, span }) => {
            assert_eq!(message, "无法获取注册表读锁: p");
            assert_eq!(span, None);
        },
        other => panic!("unexpected {other:?}"),
    }
}

#[test]
fn supported_types_hint_lists_every_type() {
    let types = get_supported_types();
    assert_eq!(types.len(), 18);
    let hint = generate_supported_types_hint();
    assert!(hint.starts_with(&format!("支持的基本类型: {}\n", types.join(", "))));
    assert!(hint.ends_with("如需支持其他类型，请实现自定义 TypeConverter 并注册到全局注册表。"));
}

/// A user's converter: `Uuid` fields become their string form.
#[derive(Debug, Clone)]
struct UuidConverter;

// The specification functions are for verified converters; a converter
// written outside the verifier never has them called.
impl TypeConverter for UuidConverter {
    fn spec_supports(&self, _t: SynTypeV) -> bool {
        unreachable!()
    }

    fn spec_priority(&self) -> i32 {
        unreachable!()
    }

    fn spec_name(&self) -> SpecText {
        unreachable!()
    }

    fn spec_convert(&self, _f: SynFieldV, _index: usize) -> Result<SpecText, MacroErrorV> {
        unreachable!()
    }

    fn convert_field_to_json_value(&self, field: &SynField, _index: usize) -> Result<String, MacroError> {
        Ok(format!(
            "serde_json :: Value :: String (self . {} . to_string ())",
            field.ident.clone().unwrap()
        ))
    }

    fn supports_type(&self, field_type: &SynType) -> bool {
        field_type.tokens == "Uuid"
    }

    fn priority(&self) -> i32 {
        150
    }

    fn name(&self) -> &'static str {
        "UuidConverter"
    }
}

#[test]
fn custom_converters_are_registered_by_priority() {
    let mut registry: ConverterRegistryImpl<UuidConverter> = ConverterRegistryImpl::new();
    let before = registry.converter_count();
    registry.register_converter(Converter::Custom(UuidConverter));
    assert_eq!(registry.converter_count(), before + 1);
    let found = registry.find_converter_for_type(&parse_type("Uuid")).unwrap();
    assert_eq!(found.name(), "UuidConverter");
    let code = registry.convert_field(&parse_field("id: Uuid"), 0).unwrap();
    assert_eq!(code, "serde_json :: Value :: String (self . id . to_string ())");
    // The custom converter, of the highest priority, is tried first.
    assert_eq!(registry.find_converter_for_type(&parse_type("i32")).unwrap().name(), "NumericConverter");
    let mut g: ConverterRegistryImpl<UuidConverter> = ConverterRegistryImpl::new();
    GlobalConverterRegistry::register(&mut g, None, Converter::Custom(UuidConverter)).unwrap();
    assert_eq!(GlobalConverterRegistry::supports_type(&g, None, &parse_type("Uuid")), Ok(true));
}
