//! Aspect registration (`#[derive(BeforeAspect)]` and its siblings),
//! method interception (`#[auto_aop]`) and `#[aop_enabled]`.

use vstd::prelude::*;
use vstd::string::*;
use crate::command::{FnParam, join, join_tokens};
use crate::di::args::{AspectArgs, AspectArgsV, spec_default_aspect_args, strs_view};
use crate::generator::node_generator::lit;
use crate::generator::tokens::string_literal;
use crate::text::spec_starts_with;

verus! {

broadcast use vstd::std_specs::vec::group_vec_axioms;

// ------------------------------------------------------------------ model

/// The kind of advice an aspect gives.
#[derive(PartialEq, Eq, Structural, Clone, Copy, Debug)]
pub enum AspectKind {
    Before,
    After,
    AfterReturning,
    AfterThrowing,
    Around,
}

/// An aspect derive input: the type's name and its `#[aspect(...)]`
/// attributes in order, each with its arguments when they could be read.
#[derive(Debug)]
pub struct AspectInput {
    pub ident: String,
    pub aspect_attrs: Vec<Option<AspectArgs>>,
}

/// A method under `#[auto_aop]`, as token texts: its attributes, its
/// visibility, its signature and its body; its name; its parameters.
#[derive(Debug)]
pub struct AopFn {
    pub attrs: Vec<String>,
    pub vis: String,
    pub sig: String,
    pub ident: String,
    pub params: Vec<FnParam>,
    pub block: String,
}

/// A struct under `#[aop_enabled]`, as token texts: its attributes, its
/// visibility, its name, its generic parameters and its fields.
#[derive(Debug)]
pub struct AopStruct {
    pub attrs: Vec<String>,
    pub vis: String,
    pub ident: String,
    pub generics: String,
    pub fields: String,
}

// ------------------------------------------------------------------ specs

/// The lowercase form of `s`, as `str::to_lowercase` gives it.
pub uninterp spec fn spec_str_lowercase(s: Seq<char>) -> Seq<char>;

/// The ASCII lowercase form of `c`.
pub open spec fn spec_ascii_lower(c: char) -> char {
    if 'A' <= c <= 'Z' {
        ((c as u32) + 32) as char
    } else {
        c
    }
}

/// The lowercase form of `s`: for an ASCII string each capital becomes its
/// small letter; beyond ASCII, the Unicode mapping `spec_str_lowercase`.
pub open spec fn spec_lower(s: Seq<char>) -> Seq<char> {
    if forall|i: int| 0 <= i < s.len() ==> (s[i] as u32) < 128 {
        s.map_values(|c: char| spec_ascii_lower(c))
    } else {
        spec_str_lowercase(s)
    }
}

/// `str::to_lowercase`. For an ASCII string the result is stated (see
/// `spec_lower`); beyond ASCII it follows the Unicode tables and is named
/// only.
#[verifier::external_body]
fn str_to_lowercase(s: &str) -> (r: String)
    ensures
        r@ == spec_str_lowercase(s@),
        r@ == spec_lower(s@),
{
    s.to_lowercase()
}

/// The arguments that count: those of the first readable attribute, or
/// none set.
pub open spec fn spec_first_aspect_args(attrs: Seq<Option<AspectArgs>>) -> AspectArgsV
    decreases attrs.len(),
{
    if attrs.len() == 0 {
        spec_default_aspect_args()
    } else {
        match attrs[0] {
            Some(a) => a@,
            None => spec_first_aspect_args(attrs.drop_first()),
        }
    }
}

/// Reading `::`-separated pieces of the first `n` characters: the finished
/// pieces, the piece being read, and whether a `:` waits for its partner.
pub open spec fn spec_colon_state(s: Seq<char>, n: nat) -> (Seq<Seq<char>>, Seq<char>, bool)
    decreases n,
{
    if n == 0 || n > s.len() {
        (Seq::empty(), Seq::empty(), false)
    } else {
        let (done, cur, pending) = spec_colon_state(s, (n - 1) as nat);
        let c = s[n - 1];
        if pending && c == ':' {
            (done.push(cur), Seq::empty(), false)
        } else if pending {
            (done, cur.push(':').push(c), false)
        } else if c == ':' {
            (done, cur, true)
        } else {
            (done, cur.push(c), false)
        }
    }
}

/// What `str::split("::")` yields: the pieces between the separators,
/// which are found from the left without overlapping.
pub open spec fn spec_split_colons(s: Seq<char>) -> Seq<Seq<char>> {
    let (done, cur, pending) = spec_colon_state(s, s.len());
    done.push(
        if pending {
            cur.push(':')
        } else {
            cur
        },
    )
}

/// The type and method patterns of the pointcut: a `pointcut` of exactly
/// two `::`-separated pieces gives them, any other `pointcut` matches
/// everything; without one, the separate patterns, each `*` by default.
pub open spec fn spec_patterns(a: AspectArgsV) -> (Seq<char>, Seq<char>) {
    match a.pointcut {
        Some(p) => {
            let parts = spec_split_colons(p);
            if parts.len() == 2 {
                (parts[0], parts[1])
            } else {
                ("*"@, "*"@)
            }
        },
        None => (
            match a.type_pattern {
                Some(t) => t,
                None => "*"@,
            },
            match a.method_pattern {
                Some(m) => m,
                None => "*"@,
            },
        ),
    }
}

/// The name part of the registration function of a kind of aspect.
pub open spec fn spec_kind_name(k: AspectKind) -> Seq<char> {
    match k {
        AspectKind::Before => "before"@,
        AspectKind::After => "after"@,
        AspectKind::AfterReturning => "after_returning"@,
        AspectKind::AfterThrowing => "after_throwing"@,
        AspectKind::Around => "around"@,
    }
}

/// The advice trait of a kind of aspect.
pub open spec fn spec_kind_trait(k: AspectKind) -> Seq<char> {
    match k {
        AspectKind::Before => "BeforeAspect"@,
        AspectKind::After => "AfterAspect"@,
        AspectKind::AfterReturning => "AfterReturningAspect"@,
        AspectKind::AfterThrowing => "AfterThrowingAspect"@,
        AspectKind::Around => "AroundAspect"@,
    }
}

/// The code of an aspect derive: a start-up function that registers a
/// default instance of the type under its pointcut.
pub open spec fn spec_derive_aspect(k: AspectKind, input: AspectInput) -> Seq<char> {
    let a = spec_first_aspect_args(input.aspect_attrs@);
    let (tp, mp) = spec_patterns(a);
    let name = input.ident@;
    "# [:: mf_context :: ctor :: ctor] fn register_"@ + spec_kind_name(k) + "_aspect_"@
        + spec_lower(name)
        + " () { let pointcut = :: mf_context :: aop :: Pointcut :: new ("@ + lit(tp) + " , "@ + lit(
        mp,
    ) + ") ; let aspect = Box :: new (< "@ + name
        + " > :: default ()) as Box < dyn :: mf_context :: aop :: "@ + spec_kind_trait(k)
        + " > ; :: mf_context :: aop :: add_"@ + spec_kind_name(k)
        + "_aspect (pointcut , aspect) ; }"@
}

/// The names of the parameters that are plain identifiers, in order,
/// among the first `n`.
pub open spec fn spec_arg_names(params: Seq<FnParam>, n: nat) -> Seq<Seq<char>>
    decreases n,
{
    if n == 0 || n > params.len() {
        Seq::empty()
    } else {
        match params[n - 1] {
            FnParam::Typed { pat_ident: Some(id), .. } => spec_arg_names(params, (n - 1) as nat).push(id@),
            _ => spec_arg_names(params, (n - 1) as nat),
        }
    }
}

/// `format ! ("{:?}" , name)` for the first `n` names, separated by commas.
pub open spec fn spec_debug_args(names: Seq<Seq<char>>, n: nat) -> Seq<char>
    decreases n,
{
    if n == 0 || n > names.len() {
        Seq::empty()
    } else if n == 1 {
        "format ! (\"{:?}\" , "@ + names[0] + ")"@
    } else {
        spec_debug_args(names, (n - 1) as nat) + " , "@ + "format ! (\"{:?}\" , "@ + names[n - 1]
            + ")"@
    }
}

/// The token texts, separated by spaces, skipping empty ones.
pub open spec fn spec_join_all(parts: Seq<Seq<char>>, n: nat) -> Seq<char>
    decreases n,
{
    if n == 0 || n > parts.len() {
        Seq::empty()
    } else {
        join(spec_join_all(parts, (n - 1) as nat), parts[n - 1])
    }
}

/// The code of `#[auto_aop]`: the method, its body run through the
/// aspects with its arguments' debug texts.
pub open spec fn spec_auto_aop(f: AopFn) -> Seq<char> {
    let names = spec_arg_names(f.params@, f.params@.len());
    let args = if names.len() == 0 {
        "Vec :: new ()"@
    } else {
        "vec ! ["@ + spec_debug_args(names, names.len()) + "]"@
    };
    join(join(spec_join_all(strs_view(f.attrs@), f.attrs@.len()), f.vis@), f.sig@) + " { let args = "@
        + args
        + " ; :: mf_context :: aop :: apply_aspects (std :: any :: type_name :: < Self > () , stringify ! ("@
        + f.ident@ + ") , args , || async move "@ + f.block@ + ") . await }"@
}

/// The code of `#[aop_enabled]`: the struct written again from its parts.
pub open spec fn spec_aop_enabled(st: AopStruct) -> Seq<char> {
    join(
        join(
            join(join(join(spec_join_all(strs_view(st.attrs@), st.attrs@.len()), st.vis@), "struct"@), st.ident@),
            st.generics@,
        ),
        st.fields@,
    )
}

// ------------------------------------------------------------------- code

fn first_aspect_args(attrs: &Vec<Option<AspectArgs>>) -> (r: Option<&AspectArgs>)
    ensures
        match r {
            Some(a) => a@ == spec_first_aspect_args(attrs@),
            None => spec_first_aspect_args(attrs@) == spec_default_aspect_args(),
        },
{
    let n = attrs.len();
    let mut i: usize = 0;
    assert(attrs@.skip(0) =~= attrs@);
    while i < n
        invariant
            n == attrs@.len(),
            i <= n,
            spec_first_aspect_args(attrs@) == spec_first_aspect_args(attrs@.skip(i as int)),
        decreases n - i,
    {
        assert(attrs@.skip(i as int).drop_first() =~= attrs@.skip(i + 1));
        match &attrs[i] {
            Some(a) => return Some(a),
            None => {},
        }
        i = i + 1;
    }
    assert(attrs@.skip(n as int).len() == 0);
    None
}

/// `p.split("::")` collected (see `spec_split_colons`).
pub fn split_colons(p: &str) -> (r: Vec<String>)
    ensures
        strs_view(r@) == spec_split_colons(p@),
{
    let n = p.unicode_len();
    let mut done: Vec<String> = Vec::new();
    let mut cur = String::new();
    let mut pending = false;
    let mut i: usize = 0;
    assert(strs_view(done@) =~= Seq::<Seq<char>>::empty());
    while i < n
        invariant
            n == p@.len(),
            i <= n,
            spec_colon_state(p@, i as nat) == (strs_view(done@), cur@, pending),
        decreases n - i,
    {
        let c = p.get_char(i);
        if pending && c == ':' {
            let ghost before = strs_view(done@);
            let piece = cur;
            cur = String::new();
            done.push(piece);
            assert(strs_view(done@) =~= before.push(piece@));
            pending = false;
        } else if pending {
            crate::text::push_char(&mut cur, ':');
            crate::text::push_char(&mut cur, c);
            pending = false;
        } else if c == ':' {
            pending = true;
        } else {
            crate::text::push_char(&mut cur, c);
        }
        i = i + 1;
    }
    if pending {
        crate::text::push_char(&mut cur, ':');
    }
    let ghost before = strs_view(done@);
    done.push(cur);
    assert(strs_view(done@) =~= before.push(cur@));
    done
}

/// The type and method patterns (see `spec_patterns`).
pub fn patterns(a: &AspectArgs) -> (r: (String, String))
    ensures
        (r.0@, r.1@) == spec_patterns(a@),
{
    match &a.pointcut {
        Some(p) => {
            let parts = split_colons(p.as_str());
            assert(strs_view(parts@).len() == parts@.len());
            if parts.len() == 2 {
                assert(strs_view(parts@)[0] == parts@[0]@);
                assert(strs_view(parts@)[1] == parts@[1]@);
                (parts[0].clone(), parts[1].clone())
            } else {
                (String::from_str("*"), String::from_str("*"))
            }
        },
        None => (
            match &a.type_pattern {
                Some(t) => t.clone(),
                None => String::from_str("*"),
            },
            match &a.method_pattern {
                Some(m) => m.clone(),
                None => String::from_str("*"),
            },
        ),
    }
}

fn kind_name(k: AspectKind) -> (r: &'static str)
    ensures
        r@ == spec_kind_name(k),
{
    match k {
        AspectKind::Before => "before",
        AspectKind::After => "after",
        AspectKind::AfterReturning => "after_returning",
        AspectKind::AfterThrowing => "after_throwing",
        AspectKind::Around => "around",
    }
}

fn kind_trait(k: AspectKind) -> (r: &'static str)
    ensures
        r@ == spec_kind_trait(k),
{
    match k {
        AspectKind::Before => "BeforeAspect",
        AspectKind::After => "AfterAspect",
        AspectKind::AfterReturning => "AfterReturningAspect",
        AspectKind::AfterThrowing => "AfterThrowingAspect",
        AspectKind::Around => "AroundAspect",
    }
}

/// The code of an aspect derive (see `spec_derive_aspect`). The type's
/// name must not be raw: the registration function's name is built from
/// it.
pub fn derive_aspect(kind: AspectKind, input: &AspectInput) -> (r: String)
    requires
        !spec_starts_with(input.ident@, "r#"@),
    ensures
        r@ == spec_derive_aspect(kind, *input),
{
    let defaults = AspectArgs::default();
    let a = match first_aspect_args(&input.aspect_attrs) {
        Some(a) => a,
        None => &defaults,
    };
    let (tp, mp) = patterns(a);
    let name = input.ident.as_str();
    let mut s = String::from_str("# [:: mf_context :: ctor :: ctor] fn register_");
    s.append(kind_name(kind));
    s.append("_aspect_");
    s.append(str_to_lowercase(name).as_str());
    s.append(" () { let pointcut = :: mf_context :: aop :: Pointcut :: new (");
    s.append(string_literal(tp.as_str()).as_str());
    s.append(" , ");
    s.append(string_literal(mp.as_str()).as_str());
    s.append(") ; let aspect = Box :: new (< ");
    s.append(name);
    s.append(" > :: default ()) as Box < dyn :: mf_context :: aop :: ");
    s.append(kind_trait(kind));
    s.append(" > ; :: mf_context :: aop :: add_");
    s.append(kind_name(kind));
    s.append("_aspect (pointcut , aspect) ; }");
    s
}

/// The token texts joined by spaces, skipping empty ones (see
/// `spec_join_all`).
pub fn join_all(parts: &Vec<String>) -> (r: String)
    ensures
        r@ == spec_join_all(strs_view(parts@), parts@.len()),
{
    let ghost pv = strs_view(parts@);
    let mut s = String::new();
    let mut i: usize = 0;
    while i < parts.len()
        invariant
            pv == strs_view(parts@),
            i <= parts@.len(),
            s@ == spec_join_all(pv, i as nat),
        decreases parts@.len() - i,
    {
        s = join_tokens(s.as_str(), parts[i].as_str());
        i = i + 1;
    }
    s
}

/// The code of `#[auto_aop]` (see `spec_auto_aop`).
pub fn auto_aop(f: &AopFn) -> (r: String)
    ensures
        r@ == spec_auto_aop(*f),
{
    let ghost ps = f.params@;
    let n = f.params.len();
    let mut count: usize = 0;
    let mut debug_args = String::new();
    let mut i: usize = 0;
    while i < n
        invariant
            n == ps.len(),
            ps == f.params@,
            i <= n,
            count == spec_arg_names(ps, i as nat).len(),
            count <= i,
            debug_args@ == spec_debug_args(spec_arg_names(ps, i as nat), count as nat),
        decreases n - i,
    {
        let ghost before = spec_arg_names(ps, i as nat);
        match &f.params[i] {
            FnParam::Typed { pat_ident: Some(id), .. } => {
                proof {
                    lemma_debug_prefix(before, before.push(id@), count as nat);
                }
                if count > 0 {
                    debug_args.append(" , ");
                }
                debug_args.append("format ! (\"{:?}\" , ");
                debug_args.append(id.as_str());
                debug_args.append(")");
                count = count + 1;
            },
            _ => {},
        }
        i = i + 1;
    }
    let mut s = join_tokens(join_tokens(join_all(&f.attrs).as_str(), f.vis.as_str()).as_str(), f.sig.as_str());
    s.append(" { let args = ");
    if count == 0 {
        s.append("Vec :: new ()");
    } else {
        s.append("vec ! [");
        s.append(debug_args.as_str());
        s.append("]");
    }
    s.append(
        " ; :: mf_context :: aop :: apply_aspects (std :: any :: type_name :: < Self > () , stringify ! (",
    );
    s.append(f.ident.as_str());
    s.append(") , args , || async move ");
    s.append(f.block.as_str());
    s.append(") . await }");
    s
}

/// The debug-argument text reads only the first `n` names.
proof fn lemma_debug_prefix(a: Seq<Seq<char>>, b: Seq<Seq<char>>, n: nat)
    requires
        n <= a.len(),
        n <= b.len(),
        forall|j: int| 0 <= j < n ==> a[j] == b[j],
    ensures
        spec_debug_args(a, n) == spec_debug_args(b, n),
    decreases n,
{
    if n > 0 {
        lemma_debug_prefix(a, b, (n - 1) as nat);
    }
}

/// The code of `#[aop_enabled]` (see `spec_aop_enabled`).
pub fn aop_enabled(st: &AopStruct) -> (r: String)
    ensures
        r@ == spec_aop_enabled(*st),
{
    join_tokens(
        join_tokens(
            join_tokens(
                join_tokens(join_tokens(join_all(&st.attrs).as_str(), st.vis.as_str()).as_str(), "struct").as_str(),
                st.ident.as_str(),
            ).as_str(),
            st.generics.as_str(),
        ).as_str(),
        st.fields.as_str(),
    )
}

/// Reading characters other than `:` with no `:` waiting extends the
/// piece being read.
proof fn lemma_colon_state_plain(s: Seq<char>, start: nat, n: nat)
    requires
        start <= n <= s.len(),
        spec_colon_state(s, start).2 == false,
        forall|j: int| start <= j < n ==> s[j] != ':',
    ensures
        spec_colon_state(s, n) == (
            spec_colon_state(s, start).0,
            spec_colon_state(s, start).1 + s.subrange(start as int, n as int),
            false,
        ),
    decreases n,
{
    if n > start {
        lemma_colon_state_plain(s, start, (n - 1) as nat);
        assert(s.subrange(start as int, n as int) =~= s.subrange(start as int, n - 1).push(s[n - 1]));
    } else {
        assert(s.subrange(start as int, n as int) =~= Seq::<char>::empty());
    }
}

/// A pointcut `Type::method` whose two sides hold no `:` splits into
/// exactly those sides, so they become the type and method patterns.
pub proof fn lemma_pointcut_sides(a: Seq<char>, b: Seq<char>)
    requires
        forall|j: int| 0 <= j < a.len() ==> a[j] != ':',
        forall|j: int| 0 <= j < b.len() ==> b[j] != ':',
    ensures
        spec_split_colons(a + "::"@ + b) == seq![a, b],
        spec_patterns(
            AspectArgsV {
                name: None,
                type_pattern: None,
                method_pattern: None,
                priority: None,
                pointcut: Some(a + "::"@ + b),
            },
        ) == (a, b),
{
    reveal_strlit("::");
    let s = a + "::"@ + b;
    let k = a.len();
    assert forall|j: int| 0 <= j < k implies s[j] != ':' by {
        assert(s[j] == a[j]);
    }
    lemma_colon_state_plain(s, 0, k);
    assert(s.subrange(0, k as int) =~= a);
    assert(Seq::<char>::empty() + a =~= a);
    assert(s[k as int] == ':');
    assert(s[k as int + 1] == ':');
    assert(spec_colon_state(s, k + 1) == (Seq::<Seq<char>>::empty(), a, true));
    assert(spec_colon_state(s, k + 2) == (seq![a], Seq::<char>::empty(), false)) by {
        assert(Seq::<Seq<char>>::empty().push(a) =~= seq![a]);
    }
    assert forall|j: int| k + 2 <= j < s.len() implies s[j] != ':' by {
        assert(s[j] == b[j - k - 2]);
    }
    lemma_colon_state_plain(s, k + 2, s.len());
    assert(s.subrange(k as int + 2, s.len() as int) =~= b);
    assert(Seq::<char>::empty() + b =~= b);
    assert(seq![a].push(b) =~= seq![a, b]);
}

} // verus!
