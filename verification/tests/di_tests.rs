use mf_derive::command::{FnParam, ParamType};
use mf_derive::di::args::{
    aspect_key, component_key, parse_profiles, split_char, ArgLit, AspectArgs, AspectKey,
    ComponentArgs, ComponentKey,
};
use mf_derive::di::aspect::{
    aop_enabled, auto_aop, derive_aspect, join_all, patterns, split_colons, AopFn, AopStruct,
    AspectInput, AspectKind,
};
use mf_derive::di::component::{
    bean, condition_check, derive_component, derive_injectable, lifecycle_text, service, BeanFn,
    ComponentInput, GenericsText, InjectField, InjectableInput,
};
use quote::ToTokens;

fn text<T: ToTokens>(t: &T) -> String {
    t.to_token_stream().to_string()
}

fn generics_text(g: &syn::Generics) -> GenericsText {
    let (i, t, w) = g.split_for_impl();
    GenericsText {
        impl_generics: text(&i),
        ty_generics: text(&t),
        where_clause: w.map(text).unwrap_or_default(),
    }
}

fn component_args(pairs: &[(&str, ArgLit)]) -> ComponentArgs {
    let mut a = ComponentArgs::default();
    for (k, v) in pairs {
        a.apply(component_key(k).expect("known key"), v);
    }
    a
}

fn str_lit(s: &str) -> ArgLit {
    ArgLit::Str(s.to_string())
}

fn no_generics() -> GenericsText {
    GenericsText { impl_generics: String::new(), ty_generics: String::new(), where_clause: String::new() }
}

/// The code parses as items and is their printed form; the printer writes
/// a closure's empty parameter list `||` as two bars.
fn parses_back_as_file(code: &str) {
    let file: syn::File = syn::parse_str(code).expect("generated items parse");
    assert_eq!(text(&file).replace("| |", "||"), code);
}

#[test]
fn profiles_are_comma_separated_and_trimmed() {
    assert_eq!(parse_profiles("dev, test ,prod"), vec!["dev", "test", "prod"]);
    assert_eq!(parse_profiles(""), vec![""]);
    assert_eq!(parse_profiles("a,,b"), vec!["a", "", "b"]);
    assert_eq!(split_char("x,y", ','), vec!["x", "y"]);
}

#[test]
fn keys_are_recognised_by_name() {
    assert_eq!(component_key("lifecycle"), Some(ComponentKey::Lifecycle));
    assert_eq!(component_key("auto_proxy"), Some(ComponentKey::AutoProxy));
    assert_eq!(component_key("priority"), None);
    assert_eq!(aspect_key("priority"), Some(AspectKey::Priority));
    assert_eq!(aspect_key("lifecycle"), None);
}

#[test]
fn literals_of_the_wrong_kind_are_ignored() {
    let a = component_args(&[("name", ArgLit::Bool(true)), ("async_lock", str_lit("yes"))]);
    assert_eq!(a.name, None);
    assert!(!a.async_lock);
    let a = component_args(&[("name", str_lit("svc")), ("async_lock", ArgLit::Bool(true))]);
    assert_eq!(a.name.as_deref(), Some("svc"));
    assert!(a.async_lock);
}

#[test]
fn priority_must_fit_in_an_i32() {
    let mut a = AspectArgs::default();
    assert!(a.apply(AspectKey::Priority, &ArgLit::Int("2147483647".to_string())));
    assert_eq!(a.priority, Some(i32::MAX));
    assert!(!a.apply(AspectKey::Priority, &ArgLit::Int("2147483648".to_string())));
    assert_eq!(a.priority, Some(i32::MAX));
}

#[test]
fn lifecycles_default_to_singleton() {
    assert_eq!(lifecycle_text(&Some("transient".to_string())), ":: mf_context :: Lifecycle :: Transient");
    assert_eq!(lifecycle_text(&Some("scoped".to_string())), ":: mf_context :: Lifecycle :: Scoped");
    assert_eq!(lifecycle_text(&Some("Scoped".to_string())), ":: mf_context :: Lifecycle :: Singleton");
    assert_eq!(lifecycle_text(&None), ":: mf_context :: Lifecycle :: Singleton");
}

#[test]
fn condition_check_lists_the_profiles() {
    assert_eq!(condition_check(&vec![]), "");
    let cc = condition_check(&vec!["dev".to_string(), "prod".to_string()]);
    assert!(cc.starts_with("let profiles = vec ! [\"dev\" , \"prod\"] ;"));
    assert!(cc.ends_with("{ return ; }"));
}

#[test]
fn component_derive_registers_the_type() {
    let args = component_args(&[
        ("name", str_lit("users")),
        ("lifecycle", str_lit("scoped")),
        ("profiles", str_lit("dev,prod")),
        ("auto_proxy", ArgLit::Bool(true)),
    ]);
    let code = derive_component(&ComponentInput {
        ident: "UserService".to_string(),
        generics: no_generics(),
        component_attrs: vec![None, Some(args)],
    });
    assert!(code.starts_with(
        "# [automatically_derived] impl :: mf_context :: Component for UserService { fn component_name () -> & 'static str { \"users\" }"
    ));
    assert!(code.contains(":: mf_context :: Lifecycle :: Scoped"));
    assert!(code.contains("fn supports_concurrent_read () -> bool { false }"));
    assert!(code.contains("auto_register_component_with_auto_proxy :: < UserService > (true) ;"));
    assert!(code.contains("vec ! [\"dev\" , \"prod\"]"));
    parses_back_as_file(&code);
}

#[test]
fn component_derive_without_arguments_uses_the_type_name() {
    let input: syn::DeriveInput =
        syn::parse_str("struct Repo<T: Clone> where T: Default { items: Vec<T> }").unwrap();
    let code = derive_component(&ComponentInput {
        ident: input.ident.to_string(),
        generics: generics_text(&input.generics),
        component_attrs: vec![],
    });
    assert!(code.contains(
        "impl < T : Clone > :: mf_context :: Component for Repo < T > where T : Default {"
    ));
    assert!(code.contains("{ \"Repo\" }"));
    assert!(code.contains(":: mf_context :: Lifecycle :: Singleton"));
    assert!(code.contains("fn Repo () { :: mf_context :: registry"));
    parses_back_as_file(&code);
}

#[test]
fn injectable_constructor_takes_the_injected_fields() {
    let code = derive_injectable(&InjectableInput {
        ident: "Handler".to_string(),
        generics: no_generics(),
        fields: vec![
            InjectField { ident: Some("repo".to_string()), ty: "Arc < Repo >".to_string(), inject_attrs: 1 },
            InjectField { ident: Some("cache".to_string()), ty: "Cache".to_string(), inject_attrs: 0 },
            InjectField { ident: Some("log".to_string()), ty: "Logger".to_string(), inject_attrs: 1 },
        ],
    });
    assert_eq!(
        code,
        "impl Handler { pub async fn new_with_dependencies (repo : Arc < Repo > , log : Logger) -> :: mf_context :: ContainerResult < Self > { Ok (Self { repo , log , cache : Default :: default () , }) } }"
    );
    parses_back_as_file(&code);
}

#[test]
fn injectable_without_fields_builds_an_empty_struct() {
    let code = derive_injectable(&InjectableInput {
        ident: "Unit".to_string(),
        generics: no_generics(),
        fields: vec![],
    });
    assert_eq!(
        code,
        "impl Unit { pub async fn new_with_dependencies () -> :: mf_context :: ContainerResult < Self > { Ok (Self { }) } }"
    );
}

#[test]
fn service_keeps_the_struct_and_registers_it() {
    let item: syn::ItemStruct = syn::parse_str("pub struct Mailer { host: String }").unwrap();
    let code = service(&text(&item), "Mailer", &ComponentArgs::default());
    assert!(code.starts_with("pub struct Mailer { host : String } impl :: mf_context :: Component for Mailer {"));
    assert!(!code.contains("automatically_derived"));
    parses_back_as_file(&code);
}

#[test]
fn bean_registers_a_factory() {
    let item: syn::ItemFn = syn::parse_str("async fn pool() -> DbPool { DbPool::new() }").unwrap();
    let f = BeanFn { tokens: text(&item), ident: "pool".to_string(), return_type: Some("DbPool".to_string()) };
    let code = bean(&f, &component_args(&[("lifecycle", str_lit("transient"))]));
    assert!(code.contains("fn register_bean_pool ()"));
    assert!(code.contains("register_bean_factory :: < _ , _ , DbPool > (\"pool\" ,"));
    assert!(code.contains("let result = pool () . await ;"));
    assert!(code.ends_with(":: mf_context :: Lifecycle :: Transient ,) ; }"));
    parses_back_as_file(&code);
}

#[test]
fn pointcut_splits_on_double_colons() {
    assert_eq!(split_colons("UserService::save"), vec!["UserService", "save"]);
    assert_eq!(split_colons(":::"), vec!["", ":"]);
    assert_eq!(split_colons("a::b::c").len(), 3);
    assert_eq!(split_colons("a:b"), vec!["a:b"]);
    let mut a = AspectArgs::default();
    a.apply(AspectKey::Pointcut, &str_lit("UserService::save"));
    assert_eq!(patterns(&a), ("UserService".to_string(), "save".to_string()));
    let mut b = AspectArgs::default();
    b.apply(AspectKey::Pointcut, &str_lit("a::b::c"));
    b.apply(AspectKey::TypePattern, &str_lit("T"));
    assert_eq!(patterns(&b), ("*".to_string(), "*".to_string()));
    let mut c = AspectArgs::default();
    c.apply(AspectKey::MethodPattern, &str_lit("get_*"));
    assert_eq!(patterns(&c), ("*".to_string(), "get_*".to_string()));
}

#[test]
fn aspect_derive_registers_a_default_instance() {
    let mut a = AspectArgs::default();
    a.apply(AspectKey::Pointcut, &str_lit("Repo::find"));
    let input = AspectInput { ident: "AuditLog".to_string(), aspect_attrs: vec![Some(a)] };
    let code = derive_aspect(AspectKind::AfterReturning, &input);
    assert_eq!(
        code,
        "# [:: mf_context :: ctor :: ctor] fn register_after_returning_aspect_auditlog () { let pointcut = :: mf_context :: aop :: Pointcut :: new (\"Repo\" , \"find\") ; let aspect = Box :: new (< AuditLog > :: default ()) as Box < dyn :: mf_context :: aop :: AfterReturningAspect > ; :: mf_context :: aop :: add_after_returning_aspect (pointcut , aspect) ; }"
    );
    parses_back_as_file(&code);
    let around = derive_aspect(AspectKind::Around, &AspectInput { ident: "Timing".to_string(), aspect_attrs: vec![] });
    assert!(around.contains("fn register_around_aspect_timing ()"));
    assert!(around.contains("Pointcut :: new (\"*\" , \"*\")"));
    assert!(around.contains("add_around_aspect (pointcut , aspect)"));
}

#[test]
fn auto_aop_passes_the_arguments_debug_texts() {
    let item: syn::ItemFn =
        syn::parse_str("#[inline] pub async fn find(&self, id: u32, (a, b): (u8, u8)) -> Option<User> { self.load(id).await }")
            .unwrap();
    let f = AopFn {
        attrs: item.attrs.iter().map(text).collect(),
        vis: text(&item.vis),
        sig: text(&item.sig),
        ident: item.sig.ident.to_string(),
        params: vec![
            FnParam::Receiver,
            FnParam::Typed { pat_ident: Some("id".to_string()), ty: ParamType::Other },
            FnParam::Typed { pat_ident: None, ty: ParamType::Other },
        ],
        block: text(&item.block),
    };
    let code = auto_aop(&f);
    assert!(code.starts_with("# [inline] pub async fn find (& self , id : u32 , (a , b) : (u8 , u8)) -> Option < User > { let args = vec ! [format ! (\"{:?}\" , id)] ;"));
    assert!(code.contains("stringify ! (find) , args , || async move { self . load (id) . await }) . await }"));
    let parsed: syn::ItemFn = syn::parse_str(&code).unwrap();
    assert_eq!(text(&parsed).replace("| |", "||"), code);
}

#[test]
fn auto_aop_without_arguments_passes_an_empty_list() {
    let f = AopFn {
        attrs: vec![],
        vis: String::new(),
        sig: "async fn tick (& self)".to_string(),
        ident: "tick".to_string(),
        params: vec![FnParam::Receiver],
        block: "{ }".to_string(),
    };
    assert_eq!(
        auto_aop(&f),
        "async fn tick (& self) { let args = Vec :: new () ; :: mf_context :: aop :: apply_aspects (std :: any :: type_name :: < Self > () , stringify ! (tick) , args , || async move { }) . await }"
    );
}

#[test]
fn aop_enabled_writes_the_struct_again() {
    let item: syn::ItemStruct = syn::parse_str("#[derive(Debug)] pub struct Store<T> { pub items: Vec<T> }").unwrap();
    let st = AopStruct {
        attrs: item.attrs.iter().map(text).collect(),
        vis: text(&item.vis),
        ident: item.ident.to_string(),
        generics: text(&item.generics),
        fields: text(&item.fields),
    };
    let code = aop_enabled(&st);
    assert_eq!(code, "# [derive (Debug)] pub struct Store < T > { pub items : Vec < T > }");
    assert_eq!(code, text(&item));
    assert_eq!(join_all(&vec!["a".to_string(), String::new(), "b".to_string()]), "a b");
}
