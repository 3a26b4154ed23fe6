use mf_derive::parser::attribute_parser::AttributeParser;
use mf_derive::syntax::{
    SynAttribute, SynData, SynDeriveInput, SynExpr, SynField, SynFields, SynGenericArgument,
    SynLit, SynMeta, SynNestedMeta, SynPathArguments, SynPathSegment, SynType, SynTypeKind,
};
use quote::ToTokens;
use syn::parse::Parser;

fn tokens_of<T: ToTokens>(t: &T) -> String {
    t.to_token_stream().to_string()
}

fn model_type(ty: &syn::Type) -> SynType {
    let kind = match ty {
        syn::Type::Path(p) => SynTypeKind::Path(
            p.path
                .segments
                .iter()
                .map(|seg| SynPathSegment {
                    ident: seg.ident.to_string(),
                    arguments: match &seg.arguments {
                        syn::PathArguments::None => SynPathArguments::Bare,
                        syn::PathArguments::AngleBracketed(a) => SynPathArguments::AngleBracketed(
                            a.args
                                .iter()
                                .map(|g| match g {
                                    syn::GenericArgument::Type(t) => {
                                        SynGenericArgument::Type(model_type(t))
                                    },
                                    _ => SynGenericArgument::Other,
                                })
                                .collect(),
                        ),
                        syn::PathArguments::Parenthesized(_) => SynPathArguments::Parenthesized,
                    },
                })
                .collect(),
        ),
        syn::Type::Tuple(t) if t.elems.is_empty() => SynTypeKind::UnitTuple,
        _ => SynTypeKind::Other,
    };
    SynType { tokens: tokens_of(ty), kind }
}

fn model_expr(e: &syn::Expr) -> SynExpr {
    match e {
        syn::Expr::Lit(l) => SynExpr::Lit(match &l.lit {
            syn::Lit::Str(s) => SynLit::Str(s.value()),
            syn::Lit::Int(i) => SynLit::Int(i.base10_digits().to_string()),
            syn::Lit::Float(f) => SynLit::Float(f.base10_digits().to_string()),
            syn::Lit::Bool(b) => SynLit::Bool(b.value),
            _ => SynLit::Other(tokens_of(l)),
        }),
        syn::Expr::Path(p) => SynExpr::Path {
            ident: p.path.get_ident().map(|i| i.to_string()),
            tokens: tokens_of(p),
        },
        syn::Expr::Unary(u) => SynExpr::Unary {
            is_neg: matches!(u.op, syn::UnOp::Neg(_)),
            expr: Box::new(model_expr(&u.expr)),
            tokens: tokens_of(u),
        },
        _ => SynExpr::Other { tokens: tokens_of(e) },
    }
}

fn float_literal_of(value: &SynExpr) -> Option<String> {
    let text = AttributeParser::extract_value_from_expr(value);
    match text.trim().parse::<f64>() {
        Ok(f) if f.is_finite() => Some(proc_macro2::Literal::f64_suffixed(f).to_string()),
        _ => None,
    }
}

fn model_nested(m: &syn::Meta) -> SynNestedMeta {
    match m {
        syn::Meta::NameValue(nv) => {
            let value = model_expr(&nv.value);
            let float_literal = float_literal_of(&value);
            SynNestedMeta::NameValue {
                path_ident: nv.path.get_ident().map(|i| i.to_string()),
                value,
                float_literal,
            }
        },
        _ => SynNestedMeta::Other,
    }
}

fn model_attr(a: &syn::Attribute) -> SynAttribute {
    let meta = match &a.meta {
        syn::Meta::Path(_) => SynMeta::Path,
        syn::Meta::List(l) => SynMeta::List(
            l.parse_args_with(
                syn::punctuated::Punctuated::<syn::Meta, syn::token::Comma>::parse_terminated,
            )
            .map(|p| p.iter().map(model_nested).collect())
            .map_err(|e| e.to_string()),
        ),
        syn::Meta::NameValue(nv) => SynMeta::NameValue(model_expr(&nv.value)),
    };
    SynAttribute { path_ident: a.path().get_ident().map(|i| i.to_string()), meta }
}

fn model_field(f: &syn::Field) -> SynField {
    SynField {
        ident: f.ident.as_ref().map(|i| i.to_string()),
        ty: model_type(&f.ty),
        attrs: f.attrs.iter().map(model_attr).collect(),
    }
}

fn model_input(input: &syn::DeriveInput) -> SynDeriveInput {
    let data = match &input.data {
        syn::Data::Struct(s) => SynData::Struct(match &s.fields {
            syn::Fields::Named(n) => SynFields::Named(n.named.iter().map(model_field).collect()),
            syn::Fields::Unnamed(_) => SynFields::Unnamed,
            syn::Fields::Unit => SynFields::Unit,
        }),
        syn::Data::Enum(_) => SynData::Enum,
        syn::Data::Union(_) => SynData::Union,
    };
    SynDeriveInput {
        ident: input.ident.to_string(),
        attrs: input.attrs.iter().map(model_attr).collect(),
        data,
    }
}

fn parse_input(src: &str) -> SynDeriveInput {
    model_input(&syn::parse_str::<syn::DeriveInput>(src).expect("derive input"))
}

fn parse_type(src: &str) -> SynType {
    model_type(&syn::parse_str::<syn::Type>(src).expect("type"))
}

fn parse_field(src: &str) -> SynField {
    model_field(&syn::Field::parse_named.parse_str(src).expect("field"))
}

fn parse_expr(src: &str) -> SynExpr {
    model_expr(&syn::parse_str::<syn::Expr>(src).expect("expr"))
}

use mf_derive::generator::mark_generator::MarkGenerator;
use mf_derive::generator::CodeGenerator;
use mf_derive::node::derive_impl::process_derive_node;
use mf_derive::parser::validation::Validator;

// Each struct below is a derive input; the tests check the code that the
// derive emits for it: which methods exist and what they build.

const VALID_NODE_CONFIGURATION: &str = r#"
#[derive(Node)]
#[node_type = "test_node"]
#[marks = "test_mark"]
#[content = "test_content"]
struct ValidNodeConfiguration {
    #[attr]
    field1: String,

    #[attr]
    field2: Option<i32>,
}
"#;

const MINIMAL_NODE: &str = r#"
#[derive(Node)]
#[node_type = "minimal"]
struct MinimalNode {
    #[attr]
    name: String,
}
"#;

const VALID_MARK_CONFIGURATION: &str = r#"
#[derive(Mark)]
#[mark_type = "test_mark"]
struct ValidMarkConfiguration {
    #[attr]
    style: String,

    #[attr]
    weight: Option<f64>,
}
"#;

const MINIMAL_MARK: &str = r#"
#[derive(Mark)]
#[mark_type = "minimal"]
struct MinimalMark {
    #[attr]
    level: i32,
}
"#;

const COMPLEX_TYPE_TEST: &str = r#"
#[derive(Node)]
#[node_type = "complex_types"]
struct ComplexTypeTest {
    #[attr]
    string_field: String,
    #[attr]
    optional_string: Option<String>,
    #[attr]
    int_field: i32,
    #[attr]
    optional_int: Option<i32>,
    #[attr]
    float_field: f64,
    #[attr]
    optional_float: Option<f64>,
    #[attr]
    bool_field: bool,
    #[attr]
    optional_bool: Option<bool>,
    non_attr_field: Vec<String>,
}
"#;

const SINGLE_FIELD_NODE: &str = r#"
#[derive(Node)]
#[node_type = "single_field"]
struct SingleFieldNode {
    #[attr]
    only_field: String,
}
"#;

const SINGLE_FIELD_MARK: &str = r#"
#[derive(Mark)]
#[mark_type = "single_field"]
struct SingleFieldMark {
    #[attr]
    only_field: String,
}
"#;

const EMPTY_STRUCT_NODE: &str = r#"
#[derive(Node)]
#[node_type = "empty"]
struct EmptyStructNode;
"#;

const EMPTY_STRUCT_MARK: &str = r#"
#[derive(Mark)]
#[mark_type = "empty"]
struct EmptyStructMark;
"#;

const NODE_WITH_PHANTOM: &str = r#"
#[derive(Node)]
#[node_type = "with_phantom"]
struct NodeWithPhantom {
    #[attr]
    reference_data: String,
    _phantom: std::marker::PhantomData<String>,
}
"#;

const COMPLEX_FIELD_NODE: &str = r#"
#[derive(Node)]
#[node_type = "complex_field"]
struct ComplexFieldNode {
    #[attr]
    data: String,
    metadata: std::collections::HashMap<String, String>,
}
"#;

/// The code the Node derive emits for a struct.
fn derive_node(src: &str) -> String {
    process_derive_node(parse_input(src)).expect("the Node derive succeeds")
}

/// The code the Mark derive emits for a struct.
fn derive_mark(src: &str) -> String {
    let input = parse_input(src);
    let config = AttributeParser::parse_mark_attributes(&input).expect("mark attributes parse");
    Validator::validate_mark_config(&config).expect("mark configuration is valid");
    MarkGenerator::new(&input, &config).generate().expect("mark code generates")
}

/// The name of the node that the generated `to_node` creates.
fn to_node_name(code: &str) -> String {
    let start = code.find("pub fn to_node").expect("to_node exists");
    let rest = &code[start..];
    let marker = "mf_core :: node :: Node :: create (";
    let at = rest.find(marker).expect("to_node creates a node") + marker.len();
    let lit: syn::LitStr = syn::parse_str(rest[at..].split(" ,").next().unwrap()).unwrap();
    lit.value()
}

/// The type of the mark that the generated `to_mark` creates.
fn to_mark_type(code: &str) -> String {
    let start = code.find("pub fn to_mark").expect("to_mark exists");
    let rest = &code[start..];
    let marker = "mf_core :: mark :: Mark :: new (";
    let at = rest.find(marker).expect("to_mark creates a mark") + marker.len();
    let lit: syn::LitStr = syn::parse_str(rest[at..].split(" ,").next().unwrap()).unwrap();
    lit.value()
}

#[test]
fn test_valid_configurations_compile() {
    let node_code = derive_node(VALID_NODE_CONFIGURATION);
    assert_eq!(to_node_name(&node_code), "test_node");

    let mark_code = derive_mark(VALID_MARK_CONFIGURATION);
    assert_eq!(to_mark_type(&mark_code), "test_mark");
}

#[test]
fn test_minimal_configurations() {
    assert_eq!(to_node_name(&derive_node(MINIMAL_NODE)), "minimal");
    assert_eq!(to_mark_type(&derive_mark(MINIMAL_MARK)), "minimal");
}

#[test]
fn test_complex_type_support() {
    let code = derive_node(COMPLEX_TYPE_TEST);
    assert_eq!(to_node_name(&code), "complex_types");
    assert!(!code.contains("non_attr_field"));
}

#[test]
fn test_single_field_structs() {
    assert_eq!(to_node_name(&derive_node(SINGLE_FIELD_NODE)), "single_field");
    assert_eq!(to_mark_type(&derive_mark(SINGLE_FIELD_MARK)), "single_field");
}

#[test]
fn test_empty_structs() {
    assert_eq!(to_node_name(&derive_node(EMPTY_STRUCT_NODE)), "empty");
    assert_eq!(to_mark_type(&derive_mark(EMPTY_STRUCT_MARK)), "empty");
}

#[test]
fn test_phantom_data_structs() {
    assert_eq!(to_node_name(&derive_node(NODE_WITH_PHANTOM)), "with_phantom");
}

#[test]
fn test_complex_field_structs() {
    assert_eq!(to_node_name(&derive_node(COMPLEX_FIELD_NODE)), "complex_field");
}

#[test]
fn test_generated_methods_exist() {
    let node: syn::ItemImpl = syn::parse_str(&derive_node(MINIMAL_NODE)).unwrap();
    let node_methods: Vec<String> = node
        .items
        .iter()
        .filter_map(|i| match i {
            syn::ImplItem::Fn(f) => Some(f.sig.ident.to_string()),
            _ => None,
        })
        .collect();
    assert!(node_methods.contains(&"to_node".to_string()));

    let mark: syn::File = syn::parse_str(&derive_mark(MINIMAL_MARK)).unwrap();
    let mark_methods: Vec<String> = match &mark.items[0] {
        syn::Item::Impl(imp) => imp
            .items
            .iter()
            .filter_map(|i| match i {
                syn::ImplItem::Fn(f) => Some(f.sig.ident.to_string()),
                _ => None,
            })
            .collect(),
        _ => panic!("the first generated item is the impl block"),
    };
    assert!(mark_methods.contains(&"to_mark".to_string()));
}

#[test]
fn test_return_types() {
    let node: syn::ItemImpl = syn::parse_str(&derive_node(MINIMAL_NODE)).unwrap();
    let mark: syn::File = syn::parse_str(&derive_mark(MINIMAL_MARK)).unwrap();
    let mark_impl = match &mark.items[0] {
        syn::Item::Impl(imp) => imp,
        _ => panic!("the first generated item is the impl block"),
    };
    let return_type = |items: &Vec<syn::ImplItem>, name: &str| {
        items
            .iter()
            .find_map(|i| match i {
                syn::ImplItem::Fn(f) if f.sig.ident == name => Some(tokens_of(&f.sig.output)),
                _ => None,
            })
            .unwrap()
    };
    assert_eq!(return_type(&node.items, "to_node"), "-> mf_core :: node :: Node");
    assert_eq!(return_type(&mark_impl.items, "to_mark"), "-> mf_core :: mark :: Mark");
}

#[test]
fn test_macro_visibility() {
    let node = derive_node(
        r#"
        #[derive(Node)]
        #[node_type = "inner"]
        pub struct InnerNode {
            #[attr]
            pub data: String,
        }
    "#,
    );
    assert_eq!(to_node_name(&node), "inner");
    let mark = derive_mark(
        r#"
        #[derive(Mark)]
        #[mark_type = "inner"]
        pub struct InnerMark {
            #[attr]
            pub style: String,
        }
    "#,
    );
    assert_eq!(to_mark_type(&mark), "inner");
}

const FULL_NODE_TEST: &str = r#"
#[derive(Node)]
#[node_type = "rich_content"]
#[marks = "bold italic underline"]
#[content = "text*"]
#[desc = "这是一个测试"]
struct FullNodeTest {
    #[attr]
    title: String,
    #[attr]
    subtitle: Option<String>,
    #[attr]
    priority: i32,
    #[attr]
    weight: Option<f64>,
    #[attr]
    is_published: bool,
    #[attr]
    tags: Option<String>,
    #[attr]
    internal_id: uuid::Uuid,
    #[attr]
    cache_data: Vec<u8>,
}
"#;

#[test]
fn test_full_node_derivation() {
    let code = derive_node(FULL_NODE_TEST);
    assert_eq!(to_node_name(&code), "rich_content");
}
