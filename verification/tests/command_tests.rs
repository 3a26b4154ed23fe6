use mf_derive::command::{
    default_struct_ident, impl_command, join_tokens, try_impl_command, CommandArgs, CommandAttr,
    CommandError, CommandFn, CommandSpan, FnParam, ParamType,
};
use quote::ToTokens;
use syn::{FnArg, Pat, Type, TypeReference};

fn tokens_of<T: ToTokens>(t: &T) -> String {
    t.to_token_stream().to_string()
}

fn model_param(arg: &FnArg) -> FnParam {
    match arg {
        FnArg::Receiver(_) => FnParam::Receiver,
        FnArg::Typed(t) => FnParam::Typed {
            pat_ident: match &*t.pat {
                Pat::Ident(p) => Some(p.ident.to_string()),
                _ => None,
            },
            ty: match &*t.ty {
                Type::Reference(TypeReference { mutability: None, elem, .. }) => {
                    ParamType::SharedRef { elem: tokens_of(&**elem) }
                },
                Type::Reference(TypeReference { mutability: Some(_), .. }) => ParamType::MutRef,
                _ => ParamType::Other,
            },
        },
    }
}

fn command_fn(src: &str) -> CommandFn {
    let f: syn::ItemFn = syn::parse_str(src).expect("function parses");
    CommandFn {
        tokens: tokens_of(&f),
        vis: tokens_of(&f.vis),
        ident: f.sig.ident.to_string(),
        is_async: f.sig.asyncness.is_some(),
        params: f.sig.inputs.iter().map(model_param).collect(),
    }
}

const ADD_NODE: &str = "pub async fn add_node(tr: &mut Transaction, parent: &NodeId, nodes: &Vec<Node>) -> TransformResult<()> { Ok(()) }";

#[test]
fn default_struct_name_is_pascal_case_with_command() {
    assert_eq!(default_struct_ident("add_node"), "AddNodeCommand");
    assert_eq!(default_struct_ident("__set_attr_"), "SetAttrCommand");
    assert_eq!(default_struct_ident("a__b"), "ABCommand");
    assert_eq!(default_struct_ident("run"), "RunCommand");
    assert_eq!(default_struct_ident("ändern"), "ÄndernCommand");
}

#[test]
fn join_tokens_skips_empty_parts() {
    assert_eq!(join_tokens("", "struct"), "struct");
    assert_eq!(join_tokens("pub", ""), "pub");
    assert_eq!(join_tokens("pub", "struct"), "pub struct");
}

#[test]
fn command_struct_holds_the_shared_arguments() {
    let f = command_fn(ADD_NODE);
    let code = impl_command(&f, &CommandAttr::Empty).unwrap();
    assert!(code.starts_with(&f.tokens));
    assert!(code.contains(
        "# [derive (Debug)] pub struct AddNodeCommand < 'a > { pub parent : & 'a NodeId , pub nodes : & 'a Vec < Node > }"
    ));
    assert!(code.contains(
        "impl < 'a > AddNodeCommand < 'a > { pub fn new (parent : & 'a NodeId , nodes : & 'a Vec < Node >) -> Self { Self { parent , nodes } } }"
    ));
    assert!(code.contains("add_node (tr , self . parent , self . nodes) . await"));
    assert!(code.contains("fn name (& self) -> String { \"AddNodeCommand\" . to_string () }"));
}

#[test]
fn generated_command_is_the_printed_form_of_items() {
    let code = impl_command(&command_fn(ADD_NODE), &CommandAttr::Empty).unwrap();
    let file: syn::File = syn::parse_str(&code).expect("generated items parse");
    assert_eq!(file.items.len(), 4);
    assert_eq!(tokens_of(&file), code);
}

#[test]
fn command_without_extra_arguments_has_no_lifetime() {
    let f = command_fn("async fn clear(tr: &mut Transaction) -> TransformResult<()> { Ok(()) }");
    let code = impl_command(&f, &CommandAttr::Empty).unwrap();
    assert!(code.contains("# [derive (Debug)] struct ClearCommand { }"));
    assert!(code.contains("impl ClearCommand { fn new () -> Self { Self { } } }"));
    assert!(code.contains("clear (tr ,) . await"));
    let file: syn::File = syn::parse_str(&code).unwrap();
    assert_eq!(tokens_of(&file), code);
}

#[test]
fn attribute_names_the_struct_and_the_command() {
    let f = command_fn(ADD_NODE);
    let attr = CommandAttr::Args(CommandArgs {
        ident: "InsertNodes".to_string(),
        command_name: Some("\"insert-nodes\"".to_string()),
    });
    let code = impl_command(&f, &attr).unwrap();
    assert!(code.contains("pub struct InsertNodes < 'a >"));
    assert!(code.contains("\"insert-nodes\" . to_string ()"));
    let attr = CommandAttr::Args(CommandArgs { ident: "InsertNodes".to_string(), command_name: None });
    let code = impl_command(&f, &attr).unwrap();
    assert!(code.contains("\"InsertNodes\" . to_string ()"));
}

fn invalid(r: Result<String, CommandError>) -> (String, CommandSpan) {
    match r {
        Err(CommandError::Invalid { message, span }) => (message, span),
        other => panic!("expected a refusal, got {:?}", other),
    }
}

#[test]
fn only_async_functions_are_commands() {
    let f = command_fn("fn add(tr: &mut Transaction) -> TransformResult<()> { Ok(()) }");
    let (message, span) = invalid(impl_command(&f, &CommandAttr::Empty));
    assert_eq!(message, "impl_command 只支持用于 async fn");
    assert_eq!(span, CommandSpan::Signature);
}

#[test]
fn unreadable_arguments_are_reported_after_the_async_check() {
    let f = command_fn(ADD_NODE);
    assert!(matches!(impl_command(&f, &CommandAttr::Unreadable), Err(CommandError::UnreadableArgs)));
    let g = command_fn("fn add(tr: &mut Transaction) {}");
    let (message, _) = invalid(impl_command(&g, &CommandAttr::Unreadable));
    assert_eq!(message, "impl_command 只支持用于 async fn");
}

#[test]
fn first_parameter_must_be_tr_by_mutable_reference() {
    for src in [
        "async fn f() {}",
        "async fn f(tx: &mut Transaction) {}",
        "async fn f(tr: &Transaction) {}",
        "async fn f(tr: Transaction) {}",
    ] {
        let (message, span) = invalid(impl_command(&command_fn(src), &CommandAttr::Empty));
        assert_eq!(message, "命令函数的第一个参数必须是 `tr: &mut Transaction`");
        assert_eq!(span, CommandSpan::Signature);
    }
}

#[test]
fn other_parameters_must_be_named_shared_references() {
    let (message, span) = invalid(impl_command(
        &command_fn("async fn f(tr: &mut Transaction, a: &A, b: B) {}"),
        &CommandAttr::Empty,
    ));
    assert_eq!(message, "除 `tr` 之外的参数必须是共享引用（`&T`）");
    assert_eq!(span, CommandSpan::ParamType(2));

    let (message, span) = invalid(impl_command(
        &command_fn("async fn f(tr: &mut Transaction, (a, b): &(A, B)) {}"),
        &CommandAttr::Empty,
    ));
    assert_eq!(message, "命令函数的参数必须是简单标识符");
    assert_eq!(span, CommandSpan::ParamPattern(1));

    let (message, span) = invalid(impl_command(
        &command_fn("async fn f(tr: &mut Transaction, a: &mut A) {}"),
        &CommandAttr::Empty,
    ));
    assert_eq!(message, "除 `tr` 之外的参数必须是共享引用（`&T`）");
    assert_eq!(span, CommandSpan::ParamType(1));
}

#[test]
fn default_name_that_is_no_identifier_is_refused_up_front() {
    let f = command_fn("async fn _1st(tr: &mut Transaction) {}");
    assert!(try_impl_command(&f, &CommandAttr::Empty).is_none());
    let attr = CommandAttr::Args(CommandArgs { ident: "First".to_string(), command_name: None });
    assert!(try_impl_command(&f, &attr).unwrap().is_ok());
    let g = command_fn(ADD_NODE);
    assert_eq!(
        try_impl_command(&g, &CommandAttr::Empty).unwrap().unwrap(),
        impl_command(&g, &CommandAttr::Empty).unwrap()
    );
}

#[test]
fn non_async_function_with_a_raw_name_gets_the_async_refusal() {
    let f = command_fn("fn r#match(tr: &mut Transaction) {}");
    let r = try_impl_command(&f, &CommandAttr::Empty).expect("the name is not built");
    let (message, span) = invalid(r);
    assert_eq!(message, "impl_command 只支持用于 async fn");
    assert_eq!(span, CommandSpan::Signature);
    let g = command_fn("async fn r#match(tr: &mut Transaction) {}");
    assert!(try_impl_command(&g, &CommandAttr::Empty).is_none());
}
