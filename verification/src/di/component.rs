//! Component registration (`#[derive(Component)]`, `#[service]`), injected
//! constructors (`#[derive(Injectable)]`) and bean factories (`#[bean]`).

use vstd::prelude::*;
use vstd::string::*;
use crate::command::{join, join_tokens};
use crate::di::args::{ComponentArgs, ComponentArgsV, spec_default_component_args, strs_view};
use crate::generator::node_generator::{braced, braced_text, lit};
use crate::generator::tokens::string_literal;
use crate::text::{spec_starts_with, str_eq};

verus! {

broadcast use vstd::std_specs::vec::group_vec_axioms;

// ------------------------------------------------------------------ model

/// The generic parts of a type, as token text: the parameters of the
/// `impl`, the arguments of the type, and the `where` clause (each empty
/// when there is none).
#[derive(Debug)]
pub struct GenericsText {
    pub impl_generics: String,
    pub ty_generics: String,
    pub where_clause: String,
}

/// A `#[derive(Component)]` input: the type's name, its generics, and its
/// `#[component(...)]` attributes in order, each with its arguments when
/// they could be read.
#[derive(Debug)]
pub struct ComponentInput {
    pub ident: String,
    pub generics: GenericsText,
    pub component_attrs: Vec<Option<ComponentArgs>>,
}

/// A field of a `#[derive(Injectable)]` struct: its name, its type's token
/// text, and how many `#[inject]` attributes it carries.
#[derive(Debug)]
pub struct InjectField {
    pub ident: Option<String>,
    pub ty: String,
    pub inject_attrs: usize,
}

/// A `#[derive(Injectable)]` input; `fields` holds the named fields, and
/// is empty for any other shape.
#[derive(Debug)]
pub struct InjectableInput {
    pub ident: String,
    pub generics: GenericsText,
    pub fields: Vec<InjectField>,
}

/// A `#[bean]` function: its token text, its name, and its return type's
/// token text (`None` without one).
#[derive(Debug)]
pub struct BeanFn {
    pub tokens: String,
    pub ident: String,
    pub return_type: Option<String>,
}

// ------------------------------------------------------------------ specs

/// The arguments that count: those of the first readable attribute, or
/// none set.
pub open spec fn spec_first_args(attrs: Seq<Option<ComponentArgs>>) -> ComponentArgsV
    decreases attrs.len(),
{
    if attrs.len() == 0 {
        spec_default_component_args()
    } else {
        match attrs[0] {
            Some(a) => a@,
            None => spec_first_args(attrs.drop_first()),
        }
    }
}

/// The lifecycle expression for a `lifecycle = ".."` value.
pub open spec fn spec_lifecycle(l: Option<Seq<char>>) -> Seq<char> {
    if l == Some("transient"@) {
        ":: mf_context :: Lifecycle :: Transient"@
    } else if l == Some("scoped"@) {
        ":: mf_context :: Lifecycle :: Scoped"@
    } else {
        ":: mf_context :: Lifecycle :: Singleton"@
    }
}

/// A boolean literal.
pub open spec fn bool_text(b: bool) -> Seq<char> {
    if b {
        "true"@
    } else {
        "false"@
    }
}

/// The string literals of the first `n` names, separated by commas.
pub open spec fn spec_lits(names: Seq<Seq<char>>, n: nat) -> Seq<char>
    decreases n,
{
    if n == 0 || n > names.len() {
        Seq::empty()
    } else if n == 1 {
        lit(names[0])
    } else {
        spec_lits(names, (n - 1) as nat) + " , "@ + lit(names[n - 1])
    }
}

/// The statements that skip registration unless one of the profiles is
/// active; none without profiles.
pub open spec fn spec_condition_check(profiles: Seq<Seq<char>>) -> Seq<char> {
    if profiles.len() == 0 {
        Seq::empty()
    } else {
        "let profiles = vec ! ["@ + spec_lits(profiles, profiles.len())
            + "] ; let profile_refs : Vec < & str > = profiles . iter () . map (| s | s . as_str ()) . collect () ; if ! :: mf_context :: profile :: ProfileCondition :: any_of (& profile_refs) . matches () { return ; }"@
    }
}

/// The body of the `Component` implementation.
pub open spec fn spec_component_body(cname: Seq<char>, a: ComponentArgsV) -> Seq<char> {
    "{ fn component_name () -> & 'static str { "@ + lit(cname)
        + " } fn lifecycle () -> :: mf_context :: Lifecycle { "@ + spec_lifecycle(a.lifecycle)
        + " } }"@
}

/// The body of the `MutableComponent` implementation.
pub open spec fn spec_mutable_body(a: ComponentArgsV) -> Seq<char> {
    "{ fn supports_concurrent_read () -> bool { "@ + bool_text(a.concurrent_read)
        + " } fn requires_async_lock () -> bool { "@ + bool_text(a.async_lock) + " } }"@
}

/// The function that registers the component at start-up.
pub open spec fn spec_registration(name: Seq<char>, a: ComponentArgsV) -> Seq<char> {
    "# [:: mf_context :: ctor :: ctor] fn "@ + name + " () { "@ + join(
        spec_condition_check(a.profiles),
        ":: mf_context :: registry :: auto_register_component_with_auto_proxy :: < "@ + name
            + " > ("@ + bool_text(a.auto_proxy) + ") ;"@,
    ) + " }"@
}

/// An `impl` header: `impl`, the generics, the trait and `for`, the type.
pub open spec fn spec_impl_header(g: GenericsText, trait_for: Seq<char>, name: Seq<char>) -> Seq<
    char,
> {
    join(join(join(join("impl"@, g.impl_generics@), trait_for), name), g.ty_generics@) + (if g.where_clause@.len() == 0 {
        Seq::empty()
    } else {
        " "@ + g.where_clause@
    })
}

/// The code of `#[derive(Component)]`.
pub open spec fn spec_derive_component(input: ComponentInput) -> Seq<char> {
    let a = spec_first_args(input.component_attrs@);
    let name = input.ident@;
    let cname = match a.name {
        Some(n) => n,
        None => name,
    };
    "# [automatically_derived] "@ + spec_impl_header(
        input.generics,
        ":: mf_context :: Component for"@,
        name,
    ) + " "@ + spec_component_body(cname, a) + " # [automatically_derived] "@ + spec_impl_header(
        input.generics,
        ":: mf_context :: MutableComponent for"@,
        name,
    ) + " "@ + spec_mutable_body(a) + " "@ + spec_registration(name, a)
}

/// The code of `#[service]` on the struct `tokens` named `name`.
pub open spec fn spec_service(tokens: Seq<char>, name: Seq<char>, a: ComponentArgsV) -> Seq<char> {
    let cname = match a.name {
        Some(n) => n,
        None => name,
    };
    join(tokens, "impl :: mf_context :: Component for "@ + name) + " "@ + spec_component_body(cname, a)
        + " impl :: mf_context :: MutableComponent for "@ + name + " "@ + spec_mutable_body(a) + " "@
        + spec_registration(name, a)
}

/// The injected (name, type) pairs of the first `n` fields: one per
/// `#[inject]` attribute of a named field.
pub open spec fn spec_injected(fields: Seq<InjectField>, n: nat) -> Seq<(Seq<char>, Seq<char>)>
    decreases n,
{
    if n == 0 || n > fields.len() {
        Seq::empty()
    } else {
        let f = fields[n - 1];
        match f.ident {
            Some(id) => spec_injected(fields, (n - 1) as nat) + Seq::new(
                f.inject_attrs as nat,
                |_i: int| (id@, f.ty@),
            ),
            None => spec_injected(fields, (n - 1) as nat),
        }
    }
}

/// The constructor's parameters: `name : Type`, separated by commas.
pub open spec fn spec_inject_params(inj: Seq<(Seq<char>, Seq<char>)>, n: nat) -> Seq<char>
    decreases n,
{
    if n == 0 || n > inj.len() {
        Seq::empty()
    } else if n == 1 {
        inj[0].0 + " : "@ + inj[0].1
    } else {
        spec_inject_params(inj, (n - 1) as nat) + " , "@ + inj[n - 1].0 + " : "@ + inj[n - 1].1
    }
}

/// `name ,` for the first `n` injected pairs.
pub open spec fn spec_inits_injected(inj: Seq<(Seq<char>, Seq<char>)>, n: nat) -> Seq<char>
    decreases n,
{
    if n == 0 || n > inj.len() {
        Seq::empty()
    } else {
        join(spec_inits_injected(inj, (n - 1) as nat), inj[n - 1].0 + " ,"@)
    }
}

/// The initialiser of a field without `#[inject]`.
pub open spec fn spec_default_init(f: InjectField) -> Seq<char> {
    match f.ident {
        Some(id) => id@ + " : Default :: default () ,"@,
        None => ": Default :: default () ,"@,
    }
}

/// `field : Default :: default () ,` for the fields without `#[inject]`
/// among the first `n`.
pub open spec fn spec_inits_other(fields: Seq<InjectField>, n: nat) -> Seq<char>
    decreases n,
{
    if n == 0 || n > fields.len() {
        Seq::empty()
    } else if fields[n - 1].inject_attrs == 0 {
        join(spec_inits_other(fields, (n - 1) as nat), spec_default_init(fields[n - 1]))
    } else {
        spec_inits_other(fields, (n - 1) as nat)
    }
}

/// The code of `#[derive(Injectable)]`.
pub open spec fn spec_derive_injectable(input: InjectableInput) -> Seq<char> {
    let fields = input.fields@;
    let inj = spec_injected(fields, fields.len());
    spec_impl_header(input.generics, Seq::empty(), input.ident@)
        + " { pub async fn new_with_dependencies ("@ + spec_inject_params(inj, inj.len())
        + ") -> :: mf_context :: ContainerResult < Self > { Ok (Self "@ + braced(
        join(spec_inits_injected(inj, inj.len()), spec_inits_other(fields, fields.len())),
    ) + ") } }"@
}

/// The code of `#[bean]` on `f`, which has a return type.
pub open spec fn spec_bean(f: BeanFn, a: ComponentArgsV) -> Seq<char> {
    let name = f.ident@;
    let bean_name = match a.name {
        Some(n) => n,
        None => name,
    };
    f.tokens@ + " # [:: mf_context :: ctor :: ctor] fn register_bean_"@ + name
        + " () { :: mf_context :: registry :: register_bean_factory :: < _ , _ , "@
        + f.return_type->Some_0@ + " > ("@ + lit(bean_name)
        + " , || Box :: pin (async move { let result = "@ + name
        + " () . await ; Ok (std :: sync :: Arc :: new (result) as std :: sync :: Arc < dyn std :: any :: Any + Send + Sync >) }) , "@
        + spec_lifecycle(a.lifecycle) + " ,) ; }"@
}

// ------------------------------------------------------------------- code

/// The arguments of the first readable attribute, or none set (see
/// `spec_first_args`).
fn first_args(attrs: &Vec<Option<ComponentArgs>>) -> (r: Option<&ComponentArgs>)
    ensures
        match r {
            Some(a) => a@ == spec_first_args(attrs@),
            None => spec_first_args(attrs@) == spec_default_component_args(),
        },
{
    let n = attrs.len();
    let mut i: usize = 0;
    assert(attrs@.skip(0) =~= attrs@);
    while i < n
        invariant
            n == attrs@.len(),
            i <= n,
            spec_first_args(attrs@) == spec_first_args(attrs@.skip(i as int)),
        decreases n - i,
    {
        assert(attrs@.skip(i as int).drop_first() =~= attrs@.skip(i + 1));
        match &attrs[i] {
            Some(a) => return Some(a),
            None => {},
        }
        i = i + 1;
    }
    assert(attrs@.skip(n as int).len() == 0);
    None
}

/// The lifecycle expression (see `spec_lifecycle`).
pub fn lifecycle_text(l: &Option<String>) -> (r: &'static str)
    ensures
        r@ == spec_lifecycle(opt_view(*l)),
{
    match l {
        Some(s) => {
            if str_eq(s.as_str(), "transient") {
                ":: mf_context :: Lifecycle :: Transient"
            } else if str_eq(s.as_str(), "scoped") {
                ":: mf_context :: Lifecycle :: Scoped"
            } else {
                ":: mf_context :: Lifecycle :: Singleton"
            }
        },
        None => ":: mf_context :: Lifecycle :: Singleton",
    }
}

/// The view of an optional string.
pub open spec fn opt_view(o: Option<String>) -> Option<Seq<char>> {
    match o {
        Some(s) => Some(s@),
        None => None,
    }
}

fn bool_token(b: bool) -> (r: &'static str)
    ensures
        r@ == bool_text(b),
{
    if b {
        "true"
    } else {
        "false"
    }
}

/// The profile check (see `spec_condition_check`).
pub fn condition_check(profiles: &Vec<String>) -> (r: String)
    ensures
        r@ == spec_condition_check(strs_view(profiles@)),
{
    let ghost pv = strs_view(profiles@);
    let n = profiles.len();
    if n == 0 {
        return String::new();
    }
    let mut lits = String::new();
    let mut i: usize = 0;
    while i < n
        invariant
            n == profiles@.len(),
            pv == strs_view(profiles@),
            i <= n,
            lits@ == spec_lits(pv, i as nat),
        decreases n - i,
    {
        if i > 0 {
            lits.append(" , ");
        }
        lits.append(string_literal(profiles[i].as_str()).as_str());
        i = i + 1;
    }
    let mut s = String::from_str("let profiles = vec ! [");
    s.append(lits.as_str());
    s.append(
        "] ; let profile_refs : Vec < & str > = profiles . iter () . map (| s | s . as_str ()) . collect () ; if ! :: mf_context :: profile :: ProfileCondition :: any_of (& profile_refs) . matches () { return ; }",
    );
    s
}

fn component_body(cname: &str, a: &ComponentArgs) -> (r: String)
    ensures
        r@ == spec_component_body(cname@, a@),
{
    let mut s = String::from_str("{ fn component_name () -> & 'static str { ");
    s.append(string_literal(cname).as_str());
    s.append(" } fn lifecycle () -> :: mf_context :: Lifecycle { ");
    s.append(lifecycle_text(&a.lifecycle));
    s.append(" } }");
    s
}

fn mutable_body(a: &ComponentArgs) -> (r: String)
    ensures
        r@ == spec_mutable_body(a@),
{
    let mut s = String::from_str("{ fn supports_concurrent_read () -> bool { ");
    s.append(bool_token(a.concurrent_read));
    s.append(" } fn requires_async_lock () -> bool { ");
    s.append(bool_token(a.async_lock));
    s.append(" } }");
    s
}

fn registration(name: &str, a: &ComponentArgs) -> (r: String)
    ensures
        r@ == spec_registration(name@, a@),
{
    let cc = condition_check(&a.profiles);
    let mut call = String::from_str(
        ":: mf_context :: registry :: auto_register_component_with_auto_proxy :: < ",
    );
    call.append(name);
    call.append(" > (");
    call.append(bool_token(a.auto_proxy));
    call.append(") ;");
    let mut s = String::from_str("# [:: mf_context :: ctor :: ctor] fn ");
    s.append(name);
    s.append(" () { ");
    s.append(join_tokens(cc.as_str(), call.as_str()).as_str());
    s.append(" }");
    s
}

fn impl_header(g: &GenericsText, trait_for: &str, name: &str) -> (r: String)
    ensures
        r@ == spec_impl_header(*g, trait_for@, name@),
{
    let mut s = join_tokens(
        join_tokens(
            join_tokens(join_tokens("impl", g.impl_generics.as_str()).as_str(), trait_for).as_str(),
            name,
        ).as_str(),
        g.ty_generics.as_str(),
    );
    if g.where_clause.unicode_len() > 0 {
        s.append(" ");
        s.append(g.where_clause.as_str());
    }
    s
}

/// The code of `#[derive(Component)]` (see `spec_derive_component`).
pub fn derive_component(input: &ComponentInput) -> (r: String)
    ensures
        r@ == spec_derive_component(*input),
{
    let defaults = ComponentArgs::default();
    let a = match first_args(&input.component_attrs) {
        Some(a) => a,
        None => &defaults,
    };
    let name = input.ident.as_str();
    let cname = match &a.name {
        Some(n) => n.as_str(),
        None => name,
    };
    let mut s = String::from_str("# [automatically_derived] ");
    s.append(impl_header(&input.generics, ":: mf_context :: Component for", name).as_str());
    s.append(" ");
    s.append(component_body(cname, a).as_str());
    s.append(" # [automatically_derived] ");
    s.append(impl_header(&input.generics, ":: mf_context :: MutableComponent for", name).as_str());
    s.append(" ");
    s.append(mutable_body(a).as_str());
    s.append(" ");
    s.append(registration(name, a).as_str());
    s
}

/// The code of `#[service]` on the struct `tokens` named `name` (see
/// `spec_service`).
pub fn service(tokens: &str, name: &str, args: &ComponentArgs) -> (r: String)
    ensures
        r@ == spec_service(tokens@, name@, args@),
{
    let cname = match &args.name {
        Some(n) => n.as_str(),
        None => name,
    };
    let head = concat_str("impl :: mf_context :: Component for ", name);
    let mut s = join_tokens(tokens, head.as_str());
    s.append(" ");
    s.append(component_body(cname, args).as_str());
    s.append(" impl :: mf_context :: MutableComponent for ");
    s.append(name);
    s.append(" ");
    s.append(mutable_body(args).as_str());
    s.append(" ");
    s.append(registration(name, args).as_str());
    s
}

fn concat_str(a: &str, b: &str) -> (r: String)
    ensures
        r@ == a@ + b@,
{
    crate::text::concat(a, b)
}

/// The code of `#[derive(Injectable)]` (see `spec_derive_injectable`).
pub fn derive_injectable(input: &InjectableInput) -> (r: String)
    requires
        spec_injected(input.fields@, input.fields@.len()).len() <= usize::MAX,
    ensures
        r@ == spec_derive_injectable(*input),
{
    let ghost fv = input.fields@;
    let n = input.fields.len();
    // The injected pairs, as parameters and initialisers.
    let mut params = String::new();
    let mut injected_inits = String::new();
    let mut others = String::new();
    let mut count: usize = 0;
    let mut i: usize = 0;
    while i < n
        invariant
            n == fv.len(),
            fv == input.fields@,
            i <= n,
            spec_injected(fv, n as nat).len() <= usize::MAX,
            count == spec_injected(fv, i as nat).len(),
            params@ == spec_inject_params(spec_injected(fv, i as nat), count as nat),
            injected_inits@ == spec_inits_injected(spec_injected(fv, i as nat), count as nat),
            others@ == spec_inits_other(fv, i as nat),
        decreases n - i,
    {
        let f = &input.fields[i];
        let ghost before = spec_injected(fv, i as nat);
        proof {
            lemma_injected_monotone(fv, (i + 1) as nat, n as nat);
        }
        match &f.ident {
            Some(id) => {
                let ghost added = Seq::new(f.inject_attrs as nat, |_k: int| (id@, f.ty@));
                assert(spec_injected(fv, (i + 1) as nat) == before + added);
                let mut k: usize = 0;
                proof {
                    lemma_params_prefix(before, before + added, count as nat);
                }
                while k < f.inject_attrs
                    invariant
                        i < n,
                        n == fv.len(),
                        f == &fv[i as int],
                        before + added == spec_injected(fv, (i + 1) as nat),
                        spec_injected(fv, (i + 1) as nat).len() <= usize::MAX,
                        added == Seq::new(f.inject_attrs as nat, |_k: int| (id@, f.ty@)),
                        k <= f.inject_attrs,
                        count == before.len() + k,
                        params@ == spec_inject_params(before + added, count as nat),
                        injected_inits@ == spec_inits_injected(before + added, count as nat),
                    decreases f.inject_attrs - k,
                {
                    let ghost all = before + added;
                    assert(all[count as int] == (id@, f.ty@));
                    if count > 0 {
                        params.append(" , ");
                    }
                    params.append(id.as_str());
                    params.append(" : ");
                    params.append(f.ty.as_str());
                    let mut init = String::from_str(id.as_str());
                    init.append(" ,");
                    injected_inits = join_tokens(injected_inits.as_str(), init.as_str());
                    count = count + 1;
                    k = k + 1;
                }
            },
            None => {},
        }
        if f.inject_attrs == 0 {
            let init = match &f.ident {
                Some(id) => concat_str(id.as_str(), " : Default :: default () ,"),
                None => String::from_str(": Default :: default () ,"),
            };
            others = join_tokens(others.as_str(), init.as_str());
        }
        i = i + 1;
    }
    let mut s = impl_header(&input.generics, "", input.ident.as_str());
    proof {
        reveal_strlit("");
    }
    s.append(" { pub async fn new_with_dependencies (");
    s.append(params.as_str());
    s.append(") -> :: mf_context :: ContainerResult < Self > { Ok (Self ");
    s.append(braced_text(join_tokens(injected_inits.as_str(), others.as_str()).as_str()).as_str());
    s.append(") } }");
    s
}

/// The injected pairs only grow with the fields read.
proof fn lemma_injected_monotone(fields: Seq<InjectField>, i: nat, n: nat)
    requires
        i <= n <= fields.len(),
    ensures
        spec_injected(fields, i).len() <= spec_injected(fields, n).len(),
    decreases n,
{
    if n > i {
        lemma_injected_monotone(fields, i, (n - 1) as nat);
    }
}

/// The parameter and initialiser texts read only the first `n` pairs.
proof fn lemma_params_prefix(a: Seq<(Seq<char>, Seq<char>)>, b: Seq<(Seq<char>, Seq<char>)>, n: nat)
    requires
        n <= a.len(),
        n <= b.len(),
        forall|j: int| 0 <= j < n ==> a[j] == b[j],
    ensures
        spec_inject_params(a, n) == spec_inject_params(b, n),
        spec_inits_injected(a, n) == spec_inits_injected(b, n),
    decreases n,
{
    if n > 0 {
        lemma_params_prefix(a, b, (n - 1) as nat);
    }
}

/// The code of `#[bean]` on `f` (see `spec_bean`). The function must have
/// a return type, and a name that is not raw (the registration function's
/// name is built from it).
pub fn bean(f: &BeanFn, args: &ComponentArgs) -> (r: String)
    requires
        f.return_type is Some,
        !spec_starts_with(f.ident@, "r#"@),
    ensures
        r@ == spec_bean(*f, args@),
{
    let rt = match &f.return_type {
        Some(t) => t.as_str(),
        None => "",
    };
    let name = f.ident.as_str();
    let bean_name = match &args.name {
        Some(n) => n.as_str(),
        None => name,
    };
    let mut s = String::from_str(f.tokens.as_str());
    s.append(" # [:: mf_context :: ctor :: ctor] fn register_bean_");
    s.append(name);
    s.append(" () { :: mf_context :: registry :: register_bean_factory :: < _ , _ , ");
    s.append(rt);
    s.append(" > (");
    s.append(string_literal(bean_name).as_str());
    s.append(" , || Box :: pin (async move { let result = ");
    s.append(name);
    s.append(
        " () . await ; Ok (std :: sync :: Arc :: new (result) as std :: sync :: Arc < dyn std :: any :: Any + Send + Sync >) }) , ",
    );
    s.append(lifecycle_text(&args.lifecycle));
    s.append(" ,) ; }");
    s
}

} // verus!
