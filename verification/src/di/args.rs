//! The arguments of `#[component(...)]`, `#[service(...)]`, `#[bean(...)]`
//! and `#[aspect(...)]`: `key = literal` pairs, read one at a time.

use vstd::prelude::*;
use vstd::string::*;
use crate::parser::default_value::{parse_i64, spec_parse_i64};
use crate::text::{spec_trim, str_eq, trim};

verus! {

broadcast use vstd::std_specs::vec::group_vec_axioms;

/// A literal argument value, as far as the arguments read it.
#[derive(Debug)]
pub enum ArgLit {
    /// A string literal, by its value.
    Str(String),
    /// A boolean literal.
    Bool(bool),
    /// An integer literal, by its base-10 digits.
    Int(String),
    /// Any other literal.
    Other,
}

/// A key of the component arguments.
#[derive(PartialEq, Eq, Structural, Clone, Copy, Debug)]
pub enum ComponentKey {
    Name,
    Lifecycle,
    ConcurrentRead,
    AsyncLock,
    Profiles,
    Conditional,
    AutoProxy,
}

/// A key of the aspect arguments.
#[derive(PartialEq, Eq, Structural, Clone, Copy, Debug)]
pub enum AspectKey {
    Name,
    TypePattern,
    MethodPattern,
    Priority,
    Pointcut,
}

/// The component arguments.
#[derive(Debug)]
pub struct ComponentArgs {
    pub name: Option<String>,
    pub lifecycle: Option<String>,
    pub concurrent_read: bool,
    pub async_lock: bool,
    pub profiles: Vec<String>,
    pub conditional: Option<String>,
    pub auto_proxy: bool,
}

/// The aspect arguments.
#[derive(Debug)]
pub struct AspectArgs {
    pub name: Option<String>,
    pub type_pattern: Option<String>,
    pub method_pattern: Option<String>,
    pub priority: Option<i32>,
    pub pointcut: Option<String>,
}

/// The error of an unknown component argument.
pub const UNKNOWN_ARGUMENT: &'static str = "Unknown argument";

/// The error of an unknown aspect argument.
pub const UNKNOWN_ASPECT_ARGUMENT: &'static str = "Unknown aspect argument";

/// The component key named `name`.
pub open spec fn spec_component_key(name: Seq<char>) -> Option<ComponentKey> {
    if name == "name"@ {
        Some(ComponentKey::Name)
    } else if name == "lifecycle"@ {
        Some(ComponentKey::Lifecycle)
    } else if name == "concurrent_read"@ {
        Some(ComponentKey::ConcurrentRead)
    } else if name == "async_lock"@ {
        Some(ComponentKey::AsyncLock)
    } else if name == "profiles"@ {
        Some(ComponentKey::Profiles)
    } else if name == "conditional"@ {
        Some(ComponentKey::Conditional)
    } else if name == "auto_proxy"@ {
        Some(ComponentKey::AutoProxy)
    } else {
        None
    }
}

/// The aspect key named `name`.
pub open spec fn spec_aspect_key(name: Seq<char>) -> Option<AspectKey> {
    if name == "name"@ {
        Some(AspectKey::Name)
    } else if name == "type_pattern"@ {
        Some(AspectKey::TypePattern)
    } else if name == "method_pattern"@ {
        Some(AspectKey::MethodPattern)
    } else if name == "priority"@ {
        Some(AspectKey::Priority)
    } else if name == "pointcut"@ {
        Some(AspectKey::Pointcut)
    } else {
        None
    }
}

/// The pieces of `s` between the occurrences of `sep` in the first `n`
/// characters: the finished pieces, and the piece being read.
pub open spec fn spec_split_state(s: Seq<char>, sep: char, n: nat) -> (Seq<Seq<char>>, Seq<char>)
    decreases n,
{
    if n == 0 || n > s.len() {
        (Seq::empty(), Seq::empty())
    } else {
        let (done, cur) = spec_split_state(s, sep, (n - 1) as nat);
        if s[n - 1] == sep {
            (done.push(cur), Seq::empty())
        } else {
            (done, cur.push(s[n - 1]))
        }
    }
}

/// What `str::split(sep)` yields: the pieces between the separators,
/// empty ones included.
pub open spec fn spec_split(s: Seq<char>, sep: char) -> Seq<Seq<char>> {
    let (done, cur) = spec_split_state(s, sep, s.len());
    done.push(cur)
}

/// The profile list of `profiles = "a, b"`: the comma-separated pieces,
/// each trimmed.
pub open spec fn spec_profiles(s: Seq<char>) -> Seq<Seq<char>> {
    spec_split(s, ',').map_values(|p: Seq<char>| spec_trim(p))
}

/// The view of a list of strings.
pub open spec fn strs_view(v: Seq<String>) -> Seq<Seq<char>> {
    v.map_values(|s: String| s@)
}

/// The view of an optional string.
pub open spec fn opt_str(o: Option<String>) -> Option<Seq<char>> {
    match o {
        Some(s) => Some(s@),
        None => None,
    }
}

/// The abstract content of component arguments.
pub ghost struct ComponentArgsV {
    pub name: Option<Seq<char>>,
    pub lifecycle: Option<Seq<char>>,
    pub concurrent_read: bool,
    pub async_lock: bool,
    pub profiles: Seq<Seq<char>>,
    pub conditional: Option<Seq<char>>,
    pub auto_proxy: bool,
}

impl View for ComponentArgs {
    type V = ComponentArgsV;

    open spec fn view(&self) -> ComponentArgsV {
        ComponentArgsV {
            name: opt_str(self.name),
            lifecycle: opt_str(self.lifecycle),
            concurrent_read: self.concurrent_read,
            async_lock: self.async_lock,
            profiles: strs_view(self.profiles@),
            conditional: opt_str(self.conditional),
            auto_proxy: self.auto_proxy,
        }
    }
}

/// The abstract content of aspect arguments.
pub ghost struct AspectArgsV {
    pub name: Option<Seq<char>>,
    pub type_pattern: Option<Seq<char>>,
    pub method_pattern: Option<Seq<char>>,
    pub priority: Option<i32>,
    pub pointcut: Option<Seq<char>>,
}

impl View for AspectArgs {
    type V = AspectArgsV;

    open spec fn view(&self) -> AspectArgsV {
        AspectArgsV {
            name: opt_str(self.name),
            type_pattern: opt_str(self.type_pattern),
            method_pattern: opt_str(self.method_pattern),
            priority: self.priority,
            pointcut: opt_str(self.pointcut),
        }
    }
}

/// The component arguments with nothing set.
pub open spec fn spec_default_component_args() -> ComponentArgsV {
    ComponentArgsV {
        name: None,
        lifecycle: None,
        concurrent_read: false,
        async_lock: false,
        profiles: Seq::empty(),
        conditional: None,
        auto_proxy: false,
    }
}

/// The aspect arguments with nothing set.
pub open spec fn spec_default_aspect_args() -> AspectArgsV {
    AspectArgsV { name: None, type_pattern: None, method_pattern: None, priority: None, pointcut: None }
}

/// One `key = literal` pair applied to component arguments: a string key
/// takes a string literal, a flag a boolean literal; a literal of another
/// kind leaves the arguments as they are.
pub open spec fn spec_apply_component(a: ComponentArgsV, key: ComponentKey, lit: ArgLit) -> ComponentArgsV {
    match (key, lit) {
        (ComponentKey::Name, ArgLit::Str(s)) => ComponentArgsV { name: Some(s@), ..a },
        (ComponentKey::Lifecycle, ArgLit::Str(s)) => ComponentArgsV { lifecycle: Some(s@), ..a },
        (ComponentKey::ConcurrentRead, ArgLit::Bool(b)) => ComponentArgsV { concurrent_read: b, ..a },
        (ComponentKey::AsyncLock, ArgLit::Bool(b)) => ComponentArgsV { async_lock: b, ..a },
        (ComponentKey::Profiles, ArgLit::Str(s)) => ComponentArgsV { profiles: spec_profiles(s@), ..a },
        (ComponentKey::Conditional, ArgLit::Str(s)) => ComponentArgsV { conditional: Some(s@), ..a },
        (ComponentKey::AutoProxy, ArgLit::Bool(b)) => ComponentArgsV { auto_proxy: b, ..a },
        _ => a,
    }
}

/// The value of an integer literal's digits as an `i32`, if it fits.
pub open spec fn spec_priority(digits: Seq<char>) -> Option<i32> {
    match spec_parse_i64(digits) {
        Some(v) => if i32::MIN <= v <= i32::MAX {
            Some(v as i32)
        } else {
            None
        },
        None => None,
    }
}

/// One `key = literal` pair applied to aspect arguments; `None` when the
/// priority literal does not fit in an `i32`.
pub open spec fn spec_apply_aspect(a: AspectArgsV, key: AspectKey, lit: ArgLit) -> Option<AspectArgsV> {
    match (key, lit) {
        (AspectKey::Name, ArgLit::Str(s)) => Some(AspectArgsV { name: Some(s@), ..a }),
        (AspectKey::TypePattern, ArgLit::Str(s)) => Some(AspectArgsV { type_pattern: Some(s@), ..a }),
        (AspectKey::MethodPattern, ArgLit::Str(s)) => Some(
            AspectArgsV { method_pattern: Some(s@), ..a },
        ),
        (AspectKey::Priority, ArgLit::Int(d)) => match spec_priority(d@) {
            Some(p) => Some(AspectArgsV { priority: Some(p), ..a }),
            None => None,
        },
        (AspectKey::Pointcut, ArgLit::Str(s)) => Some(AspectArgsV { pointcut: Some(s@), ..a }),
        _ => Some(a),
    }
}

/// The component key named `name`, if it is one.
pub fn component_key(name: &str) -> (r: Option<ComponentKey>)
    ensures
        r == spec_component_key(name@),
{
    if str_eq(name, "name") {
        Some(ComponentKey::Name)
    } else if str_eq(name, "lifecycle") {
        Some(ComponentKey::Lifecycle)
    } else if str_eq(name, "concurrent_read") {
        Some(ComponentKey::ConcurrentRead)
    } else if str_eq(name, "async_lock") {
        Some(ComponentKey::AsyncLock)
    } else if str_eq(name, "profiles") {
        Some(ComponentKey::Profiles)
    } else if str_eq(name, "conditional") {
        Some(ComponentKey::Conditional)
    } else if str_eq(name, "auto_proxy") {
        Some(ComponentKey::AutoProxy)
    } else {
        None
    }
}

/// The aspect key named `name`, if it is one.
pub fn aspect_key(name: &str) -> (r: Option<AspectKey>)
    ensures
        r == spec_aspect_key(name@),
{
    if str_eq(name, "name") {
        Some(AspectKey::Name)
    } else if str_eq(name, "type_pattern") {
        Some(AspectKey::TypePattern)
    } else if str_eq(name, "method_pattern") {
        Some(AspectKey::MethodPattern)
    } else if str_eq(name, "priority") {
        Some(AspectKey::Priority)
    } else if str_eq(name, "pointcut") {
        Some(AspectKey::Pointcut)
    } else {
        None
    }
}

/// `s.split(sep)` collected (see `spec_split`).
pub fn split_char(s: &str, sep: char) -> (r: Vec<String>)
    ensures
        strs_view(r@) == spec_split(s@, sep),
{
    let n = s.unicode_len();
    let mut done: Vec<String> = Vec::new();
    let mut cur = String::new();
    let mut i: usize = 0;
    assert(strs_view(done@) =~= Seq::<Seq<char>>::empty());
    while i < n
        invariant
            n == s@.len(),
            i <= n,
            spec_split_state(s@, sep, i as nat) == (strs_view(done@), cur@),
        decreases n - i,
    {
        let c = s.get_char(i);
        if c == sep {
            let ghost before = strs_view(done@);
            let piece = cur;
            cur = String::new();
            done.push(piece);
            assert(strs_view(done@) =~= before.push(piece@));
        } else {
            crate::text::push_char(&mut cur, c);
        }
        i = i + 1;
    }
    let ghost before = strs_view(done@);
    done.push(cur);
    assert(strs_view(done@) =~= before.push(cur@));
    done
}

/// The profile list of `profiles = "a, b"` (see `spec_profiles`).
pub fn parse_profiles(s: &str) -> (r: Vec<String>)
    ensures
        strs_view(r@) == spec_profiles(s@),
{
    let pieces = split_char(s, ',');
    let ghost pv = strs_view(pieces@);
    let mut out: Vec<String> = Vec::new();
    let mut i: usize = 0;
    while i < pieces.len()
        invariant
            pv == strs_view(pieces@),
            pv == spec_split(s@, ','),
            i <= pieces@.len(),
            strs_view(out@) =~= pv.take(i as int).map_values(|p: Seq<char>| spec_trim(p)),
        decreases pieces@.len() - i,
    {
        let t = trim(pieces[i].as_str());
        let ghost before = strs_view(out@);
        out.push(t);
        assert(strs_view(out@) =~= before.push(t@));
        assert(pv.take(i + 1) =~= pv.take(i as int).push(pv[i as int]));
        i = i + 1;
    }
    assert(pv.take(pieces@.len() as int) =~= pv);
    out
}

impl Default for ComponentArgs {
    fn default() -> (r: Self)
        ensures
            r@ == spec_default_component_args(),
    {
        let r = ComponentArgs {
            name: None,
            lifecycle: None,
            concurrent_read: false,
            async_lock: false,
            profiles: Vec::new(),
            conditional: None,
            auto_proxy: false,
        };
        assert(strs_view(r.profiles@) =~= Seq::empty());
        r
    }
}

impl ComponentArgs {
    /// Applies one `key = literal` pair (see `spec_apply_component`).
    pub fn apply(&mut self, key: ComponentKey, lit: &ArgLit)
        ensures
            final(self)@ == spec_apply_component(old(self)@, key, *lit),
    {
        match (key, lit) {
            (ComponentKey::Name, ArgLit::Str(s)) => self.name = Some(s.clone()),
            (ComponentKey::Lifecycle, ArgLit::Str(s)) => self.lifecycle = Some(s.clone()),
            (ComponentKey::ConcurrentRead, ArgLit::Bool(b)) => self.concurrent_read = *b,
            (ComponentKey::AsyncLock, ArgLit::Bool(b)) => self.async_lock = *b,
            (ComponentKey::Profiles, ArgLit::Str(s)) => self.profiles = parse_profiles(s.as_str()),
            (ComponentKey::Conditional, ArgLit::Str(s)) => self.conditional = Some(s.clone()),
            (ComponentKey::AutoProxy, ArgLit::Bool(b)) => self.auto_proxy = *b,
            _ => {},
        }
    }
}

impl Default for AspectArgs {
    fn default() -> (r: Self)
        ensures
            r@ == spec_default_aspect_args(),
    {
        AspectArgs { name: None, type_pattern: None, method_pattern: None, priority: None, pointcut: None }
    }
}

impl AspectArgs {
    /// Applies one `key = literal` pair (see `spec_apply_aspect`); `false`,
    /// with the arguments unchanged, when the priority does not fit in an
    /// `i32`.
    pub fn apply(&mut self, key: AspectKey, lit: &ArgLit) -> (r: bool)
        ensures
            match spec_apply_aspect(old(self)@, key, *lit) {
                Some(a) => r && final(self)@ == a,
                None => !r && final(self)@ == old(self)@,
            },
    {
        match (key, lit) {
            (AspectKey::Name, ArgLit::Str(s)) => self.name = Some(s.clone()),
            (AspectKey::TypePattern, ArgLit::Str(s)) => self.type_pattern = Some(s.clone()),
            (AspectKey::MethodPattern, ArgLit::Str(s)) => self.method_pattern = Some(s.clone()),
            (AspectKey::Priority, ArgLit::Int(d)) => {
                match parse_i64(d.as_str()) {
                    Some(v) => {
                        if v < -2147483648 || v > 2147483647 {
                            return false;
                        }
                        self.priority = Some(v as i32);
                    },
                    None => return false,
                }
            },
            (AspectKey::Pointcut, ArgLit::Str(s)) => self.pointcut = Some(s.clone()),
            _ => {},
        }
        true
    }
}

} // verus!
