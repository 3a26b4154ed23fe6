//! The `#[impl_command]` attribute: an `async fn` taking
//! `tr: &mut Transaction` and shared references gains a command struct that
//! holds those references and runs the function on a transaction.
//!
//! The function is read into a plain model (`CommandFn`); the generated
//! code is token text, as the token printer writes it.

use vstd::prelude::*;
use vstd::string::*;
use crate::generator::node_generator::{braced, braced_text, lit};
use crate::generator::tokens::{parses_as_ident, spec_parses_as_ident, string_literal};
use crate::text::str_eq;

verus! {

broadcast use vstd::std_specs::vec::group_vec_axioms;

// ------------------------------------------------------------------ model

/// Where a command error points in the function.
#[derive(PartialEq, Eq, Structural, Clone, Copy, Debug)]
pub enum CommandSpan {
    /// The function's signature.
    Signature,
    /// The parameter with this index.
    Param(usize),
    /// The pattern of the parameter with this index.
    ParamPattern(usize),
    /// The type of the parameter with this index.
    ParamType(usize),
}

/// The type of a parameter, as far as the command reads it.
#[derive(Debug)]
pub enum ParamType {
    /// `&T`, with the token text of `T`.
    SharedRef { elem: String },
    /// `&mut T`.
    MutRef,
    /// Any other type.
    Other,
}

/// A parameter of the function.
#[derive(Debug)]
pub enum FnParam {
    /// `self` in any form.
    Receiver,
    /// `pattern: type`; the identifier when the pattern is one.
    Typed { pat_ident: Option<String>, ty: ParamType },
}

/// The function the attribute is on.
#[derive(Debug)]
pub struct CommandFn {
    /// The whole function, as token text.
    pub tokens: String,
    /// Its visibility, as token text (empty when private).
    pub vis: String,
    /// Its name.
    pub ident: String,
    /// Whether it is `async`.
    pub is_async: bool,
    /// Its parameters.
    pub params: Vec<FnParam>,
}

/// The attribute's arguments `Name` or `Name, "command name"`.
#[derive(Debug)]
pub struct CommandArgs {
    /// The command struct's name.
    pub ident: String,
    /// The command name's string literal, as token text.
    pub command_name: Option<String>,
}

/// The attribute's argument list.
#[derive(Debug)]
pub enum CommandAttr {
    /// No arguments.
    Empty,
    /// Arguments that were read.
    Args(CommandArgs),
    /// Arguments that could not be read.
    Unreadable,
}

/// Why no command was generated.
#[derive(Debug)]
pub enum CommandError {
    /// The function does not fit, with the message and its place.
    Invalid { message: String, span: CommandSpan },
    /// The attribute's arguments could not be read; the argument parser's
    /// own error reports it.
    UnreadableArgs,
}

/// The view of a `CommandError`.
pub ghost enum CommandErrorV {
    Invalid { message: Seq<char>, span: CommandSpan },
    UnreadableArgs,
}

impl View for CommandError {
    type V = CommandErrorV;

    open spec fn view(&self) -> CommandErrorV {
        match self {
            CommandError::Invalid { message, span } => CommandErrorV::Invalid {
                message: message@,
                span: *span,
            },
            CommandError::UnreadableArgs => CommandErrorV::UnreadableArgs,
        }
    }
}

/// The view of a command result.
pub open spec fn command_result_view(r: Result<String, CommandError>) -> Result<
    Seq<char>,
    CommandErrorV,
> {
    match r {
        Ok(s) => Ok(s@),
        Err(e) => Err(e@),
    }
}

// ------------------------------------------------------------------ specs

/// The uppercase mapping of `c` (one or more characters), as
/// `char::to_uppercase` yields it.
pub uninterp spec fn spec_char_uppercase(c: char) -> Seq<char>;

/// Whether `c` is an ASCII lowercase letter.
pub open spec fn spec_is_ascii_lower(c: char) -> bool {
    'a' <= c <= 'z'
}

/// The uppercase form of `c`: for ASCII, a small letter becomes its
/// capital and any other character stays; beyond ASCII, the Unicode
/// mapping `spec_char_uppercase`.
pub open spec fn spec_upper(c: char) -> Seq<char> {
    if spec_is_ascii_lower(c) {
        seq![((c as u32) - 32) as char]
    } else if (c as u32) < 128 {
        seq![c]
    } else {
        spec_char_uppercase(c)
    }
}

/// `char::to_uppercase`, collected. For ASCII the mapping is stated (see
/// `spec_upper`); beyond ASCII it follows the Unicode tables and is named
/// only.
#[verifier::external_body]
fn char_to_uppercase(c: char) -> (r: String)
    ensures
        r@ == spec_char_uppercase(c),
        r@ == spec_upper(c),
{
    c.to_uppercase().collect()
}

/// The first `n` characters of a function name in PascalCase, and whether
/// the next character starts a word: underscores are dropped and the
/// character after them, like the first, is capitalised.
pub open spec fn spec_pascal_state(s: Seq<char>, n: nat) -> (Seq<char>, bool)
    decreases n,
{
    if n == 0 || n > s.len() {
        (Seq::empty(), true)
    } else {
        let (acc, cap) = spec_pascal_state(s, (n - 1) as nat);
        let c = s[n - 1];
        if c == '_' {
            (acc, true)
        } else if cap {
            (acc + spec_upper(c), false)
        } else {
            (acc.push(c), false)
        }
    }
}

/// The command struct's default name: the function's name in PascalCase,
/// then `Command`.
pub open spec fn spec_default_struct_name(fn_name: Seq<char>) -> Seq<char> {
    spec_pascal_state(fn_name, fn_name.len()).0 + "Command"@
}

/// A refusal.
pub open spec fn invalid(message: Seq<char>, span: CommandSpan) -> CommandErrorV {
    CommandErrorV::Invalid { message, span }
}

/// The check of a parameter after `tr` (at index `i` of the parameter
/// list): its name and the referenced type's text.
pub open spec fn spec_field(p: FnParam, i: usize) -> Result<(Seq<char>, Seq<char>), CommandErrorV> {
    match p {
        FnParam::Receiver => Err(invalid("命令函数的参数必须是标识符"@, CommandSpan::Param(i))),
        FnParam::Typed { pat_ident: None, .. } => Err(
            invalid("命令函数的参数必须是简单标识符"@, CommandSpan::ParamPattern(i)),
        ),
        FnParam::Typed { pat_ident: Some(id), ty: ParamType::SharedRef { elem } } => Ok(
            (id@, elem@),
        ),
        FnParam::Typed { .. } => Err(
            invalid("除 `tr` 之外的参数必须是共享引用（`&T`）"@, CommandSpan::ParamType(i)),
        ),
    }
}

/// The checked parameters after `tr` among the first `n` parameters, or
/// the first refusal.
pub open spec fn spec_fields(params: Seq<FnParam>, n: nat) -> Result<
    Seq<(Seq<char>, Seq<char>)>,
    CommandErrorV,
>
    decreases n,
{
    if n <= 1 || n > params.len() {
        Ok(Seq::empty())
    } else {
        match spec_fields(params, (n - 1) as nat) {
            Err(e) => Err(e),
            Ok(fs) => match spec_field(params[n - 1], (n - 1) as usize) {
                Err(e) => Err(e),
                Ok(f) => Ok(fs.push(f)),
            },
        }
    }
}

/// The texts `f(x)` of the items, separated by commas.
pub open spec fn spec_list(
    fs: Seq<(Seq<char>, Seq<char>)>,
    n: nat,
    f: spec_fn((Seq<char>, Seq<char>)) -> Seq<char>,
) -> Seq<char>
    decreases n,
{
    if n == 0 || n > fs.len() {
        Seq::empty()
    } else if n == 1 {
        f(fs[0])
    } else {
        spec_list(fs, (n - 1) as nat, f) + " , "@ + f(fs[n - 1])
    }
}

/// A field of the command struct.
pub open spec fn field_def(f: (Seq<char>, Seq<char>)) -> Seq<char> {
    "pub "@ + f.0 + " : & 'a "@ + f.1
}

/// A parameter of the constructor.
pub open spec fn ctor_param(f: (Seq<char>, Seq<char>)) -> Seq<char> {
    f.0 + " : & 'a "@ + f.1
}

/// A field initialiser of the constructor.
pub open spec fn ctor_init(f: (Seq<char>, Seq<char>)) -> Seq<char> {
    f.0
}

/// An argument of the call of the function.
pub open spec fn call_arg(f: (Seq<char>, Seq<char>)) -> Seq<char> {
    "self . "@ + f.0
}

/// The struct's fields for the first `n` checked parameters.
pub open spec fn spec_field_defs(fs: Seq<(Seq<char>, Seq<char>)>, n: nat) -> Seq<char> {
    spec_list(fs, n, |x: (Seq<char>, Seq<char>)| field_def(x))
}

/// The constructor's parameters for the first `n` checked parameters.
pub open spec fn spec_ctor_params(fs: Seq<(Seq<char>, Seq<char>)>, n: nat) -> Seq<char> {
    spec_list(fs, n, |x: (Seq<char>, Seq<char>)| ctor_param(x))
}

/// The constructor's field initialisers for the first `n` checked
/// parameters.
pub open spec fn spec_ctor_inits(fs: Seq<(Seq<char>, Seq<char>)>, n: nat) -> Seq<char> {
    spec_list(fs, n, |x: (Seq<char>, Seq<char>)| ctor_init(x))
}

/// The call's arguments for the first `n` checked parameters.
pub open spec fn spec_call_args(fs: Seq<(Seq<char>, Seq<char>)>, n: nat) -> Seq<char> {
    spec_list(fs, n, |x: (Seq<char>, Seq<char>)| call_arg(x))
}

/// Two token texts, with a space between them when both are non-empty.
pub open spec fn join(a: Seq<char>, b: Seq<char>) -> Seq<char> {
    if a.len() == 0 {
        b
    } else if b.len() == 0 {
        a
    } else {
        a + " "@ + b
    }
}

/// Whether the first parameter is `tr: &mut _`.
pub open spec fn spec_first_param_ok(params: Seq<FnParam>) -> bool {
    params.len() > 0 && match params[0] {
        FnParam::Typed { pat_ident: Some(id), ty: ParamType::MutRef } => id@ == "tr"@,
        _ => false,
    }
}

/// The command struct's name and the command name's literal.
pub open spec fn spec_names(f: CommandFn, attr: CommandAttr) -> (Seq<char>, Seq<char>) {
    match attr {
        CommandAttr::Args(a) => (
            a.ident@,
            match a.command_name {
                Some(l) => l@,
                None => lit(a.ident@),
            },
        ),
        _ => {
            let d = spec_default_struct_name(f.ident@);
            (d, lit(d))
        },
    }
}

/// The code generated for the checked parameters `fs`, with struct name
/// `s` and command name literal `l`.
pub open spec fn spec_command_code(
    f: CommandFn,
    s: Seq<char>,
    l: Seq<char>,
    fs: Seq<(Seq<char>, Seq<char>)>,
) -> Seq<char> {
    let g = if fs.len() == 0 {
        Seq::empty()
    } else {
        "< 'a >"@
    };
    let v = f.vis@;
    let n = fs.len();
    let fields = spec_field_defs(fs, n);
    let params = spec_ctor_params(fs, n);
    let inits = spec_ctor_inits(fs, n);
    let args = spec_call_args(fs, n);
    let item_struct = join(join(join(join("# [derive (Debug)]"@, v), "struct"@), s), g) + " "@
        + braced(fields);
    let item_impl = join(join(join("impl"@, g), s), g) + " "@ + braced(
        join(v, "fn new ("@ + params + ") -> Self { Self "@ + braced(inits) + " }"@),
    );
    let item_command = "# [async_trait :: async_trait] "@ + join(
        join(
            join(
                join("impl"@, g),
                "mf_state :: transaction :: CommandGeneric < mf_model :: node_pool :: NodePool , mf_model :: schema :: Schema > for"@,
            ),
            s,
        ),
        g,
    )
        + " { async fn execute (& self , tr : & mut mf_state :: Transaction ,) -> TransformResult < () > { "@
        + f.ident@ + " (tr ,"@ + (if n == 0 {
        Seq::empty()
    } else {
        " "@ + args
    }) + ") . await } fn name (& self) -> String { "@ + l + " . to_string () } }"@;
    join(f.tokens@, item_struct) + " "@ + item_impl + " "@ + item_command
}

/// The code generated for the function, or why there is none: the
/// function must be `async`, the arguments readable, the first parameter
/// `tr: &mut _`, and every other parameter `name: &T`.
pub open spec fn spec_impl_command(f: CommandFn, attr: CommandAttr) -> Result<
    Seq<char>,
    CommandErrorV,
> {
    if !f.is_async {
        Err(invalid("impl_command 只支持用于 async fn"@, CommandSpan::Signature))
    } else if attr is Unreadable {
        Err(CommandErrorV::UnreadableArgs)
    } else if !spec_first_param_ok(f.params@) {
        Err(invalid("命令函数的第一个参数必须是 `tr: &mut Transaction`"@, CommandSpan::Signature))
    } else {
        match spec_fields(f.params@, f.params@.len()) {
            Err(e) => Err(e),
            Ok(fs) => {
                let (s, l) = spec_names(f, attr);
                Ok(spec_command_code(f, s, l, fs))
            },
        }
    }
}

/// Whether the generated code names a valid struct: the default name,
/// used when the attribute has no arguments, must be an identifier.
pub open spec fn spec_struct_name_ok(f: CommandFn, attr: CommandAttr) -> bool {
    attr is Empty ==> spec_parses_as_ident(spec_default_struct_name(f.ident@))
}

/// Once a parameter is refused, the refusal stands for longer prefixes.
proof fn lemma_fields_err(params: Seq<FnParam>, i: nat, n: nat)
    requires
        i <= n <= params.len(),
        spec_fields(params, i) is Err,
    ensures
        spec_fields(params, n) == spec_fields(params, i),
    decreases n,
{
    if n > i {
        lemma_fields_err(params, i, (n - 1) as nat);
    }
}

// ------------------------------------------------------------------- code

/// Two token texts, with a space between them when both are non-empty.
pub fn join_tokens(a: &str, b: &str) -> (r: String)
    ensures
        r@ == join(a@, b@),
{
    if a.unicode_len() == 0 {
        String::from_str(b)
    } else if b.unicode_len() == 0 {
        String::from_str(a)
    } else {
        let mut s = String::from_str(a);
        s.append(" ");
        s.append(b);
        s
    }
}

/// The command struct's default name (see `spec_default_struct_name`).
pub fn default_struct_ident(fn_ident: &str) -> (r: String)
    ensures
        r@ == spec_default_struct_name(fn_ident@),
{
    let n = fn_ident.unicode_len();
    let mut result = String::new();
    let mut capitalize_next = true;
    let mut i: usize = 0;
    while i < n
        invariant
            n == fn_ident@.len(),
            i <= n,
            spec_pascal_state(fn_ident@, i as nat) == (result@, capitalize_next),
        decreases n - i,
    {
        let ch = fn_ident.get_char(i);
        if ch == '_' {
            capitalize_next = true;
        } else if capitalize_next {
            let upper = char_to_uppercase(ch);
            result.append(upper.as_str());
            capitalize_next = false;
        } else {
            let mut one = String::new();
            crate::text::push_char(&mut one, ch);
            result.append(one.as_str());
            assert(seq![ch] =~= Seq::<char>::empty().push(ch));
            assert(result@ =~= spec_pascal_state(fn_ident@, i as nat).0.push(ch));
            capitalize_next = false;
        }
        i = i + 1;
    }
    result.append("Command");
    result
}

/// The command struct's name and the command name's literal (see
/// `spec_names`).
pub fn parse_args(f: &CommandFn, attr: &CommandAttr) -> (r: (String, String))
    ensures
        (r.0@, r.1@) == spec_names(*f, *attr),
{
    match attr {
        CommandAttr::Args(a) => {
            let l = match &a.command_name {
                Some(l) => l.clone(),
                None => string_literal(a.ident.as_str()),
            };
            (a.ident.clone(), l)
        },
        _ => {
            let d = default_struct_ident(f.ident.as_str());
            let l = string_literal(d.as_str());
            (d, l)
        },
    }
}

/// The parameters after `tr` checked, as (name, referenced type) pairs,
/// or the first refusal (see `spec_fields`).
pub fn build_fields(params: &Vec<FnParam>) -> (r: Result<Vec<(String, String)>, CommandError>)
    ensures
        match r {
            Ok(v) => spec_fields(params@, params@.len()) == Ok::<
                Seq<(Seq<char>, Seq<char>)>,
                CommandErrorV,
            >(pairs_view(v@)),
            Err(e) => spec_fields(params@, params@.len()) == Err::<
                Seq<(Seq<char>, Seq<char>)>,
                CommandErrorV,
            >(e@),
        },
{
    let n = params.len();
    let mut out: Vec<(String, String)> = Vec::new();
    let mut i: usize = 1;
    assert(pairs_view(out@) =~= Seq::empty());
    while i < n
        invariant
            n == params@.len(),
            1 <= i,
            i <= n || n == 0,
            spec_fields(params@, i as nat) == Ok::<Seq<(Seq<char>, Seq<char>)>, CommandErrorV>(
                pairs_view(out@),
            ),
        decreases n - i,
    {
        let ghost before = pairs_view(out@);
        match &params[i] {
            FnParam::Receiver => {
                proof {
                    lemma_fields_err(params@, (i + 1) as nat, n as nat);
                }
                return Err(
                    CommandError::Invalid {
                        message: String::from_str("命令函数的参数必须是标识符"),
                        span: CommandSpan::Param(i),
                    },
                );
            },
            FnParam::Typed { pat_ident: None, .. } => {
                proof {
                    lemma_fields_err(params@, (i + 1) as nat, n as nat);
                }
                return Err(
                    CommandError::Invalid {
                        message: String::from_str("命令函数的参数必须是简单标识符"),
                        span: CommandSpan::ParamPattern(i),
                    },
                );
            },
            FnParam::Typed { pat_ident: Some(id), ty: ParamType::SharedRef { elem } } => {
                out.push((id.clone(), elem.clone()));
                proof {
                    assert(pairs_view(out@) =~= before.push(
                        (id@, elem@),
                    ));
                }
            },
            FnParam::Typed { .. } => {
                proof {
                    lemma_fields_err(params@, (i + 1) as nat, n as nat);
                }
                return Err(
                    CommandError::Invalid {
                        message: String::from_str("除 `tr` 之外的参数必须是共享引用（`&T`）"),
                        span: CommandSpan::ParamType(i),
                    },
                );
            },
        }
        i = i + 1;
    }
    Ok(out)
}

/// The view of checked parameters.
pub open spec fn pairs_view(v: Seq<(String, String)>) -> Seq<(Seq<char>, Seq<char>)> {
    v.map_values(|p: (String, String)| (p.0@, p.1@))
}

/// The four comma-separated lists of the generated code: struct fields,
/// constructor parameters, constructor initialisers, call arguments.
fn command_lists(fs: &Vec<(String, String)>) -> (r: (String, String, String, String))
    ensures
        r.0@ == spec_field_defs(pairs_view(fs@), fs@.len()),
        r.1@ == spec_ctor_params(pairs_view(fs@), fs@.len()),
        r.2@ == spec_ctor_inits(pairs_view(fs@), fs@.len()),
        r.3@ == spec_call_args(pairs_view(fs@), fs@.len()),
{
    let ghost fv = pairs_view(fs@);
    let n = fs.len();
    let mut fields = String::new();
    let mut params = String::new();
    let mut inits = String::new();
    let mut args = String::new();
    let mut i: usize = 0;
    while i < n
        invariant
            n == fs@.len(),
            fv == pairs_view(fs@),
            i <= n,
            fields@ == spec_field_defs(fv, i as nat),
            params@ == spec_ctor_params(fv, i as nat),
            inits@ == spec_ctor_inits(fv, i as nat),
            args@ == spec_call_args(fv, i as nat),
        decreases n - i,
    {
        let id = fs[i].0.as_str();
        let elem = fs[i].1.as_str();
        assert(fv[i as int] == (id@, elem@));
        if i > 0 {
            fields.append(" , ");
            params.append(" , ");
            inits.append(" , ");
            args.append(" , ");
        }
        fields.append("pub ");
        fields.append(id);
        fields.append(" : & 'a ");
        fields.append(elem);
        params.append(id);
        params.append(" : & 'a ");
        params.append(elem);
        inits.append(id);
        args.append("self . ");
        args.append(id);
        i = i + 1;
    }
    (fields, params, inits, args)
}

/// The code generated for the function, or why there is none (see
/// `spec_impl_command`). For an `async` function without arguments, the
/// default struct name must be an identifier.
pub fn impl_command(f: &CommandFn, attr: &CommandAttr) -> (r: Result<String, CommandError>)
    requires
        f.is_async ==> spec_struct_name_ok(*f, *attr),
    ensures
        command_result_view(r) == spec_impl_command(*f, *attr),
{
    if !f.is_async {
        return Err(
            CommandError::Invalid {
                message: String::from_str("impl_command 只支持用于 async fn"),
                span: CommandSpan::Signature,
            },
        );
    }
    if let CommandAttr::Unreadable = attr {
        return Err(CommandError::UnreadableArgs);
    }
    let (command_struct, command_name_lit) = parse_args(f, attr);
    let first_ok = f.params.len() > 0 && match &f.params[0] {
        FnParam::Typed { pat_ident: Some(id), ty: ParamType::MutRef } => str_eq(id.as_str(), "tr"),
        _ => false,
    };
    if !first_ok {
        return Err(
            CommandError::Invalid {
                message: String::from_str("命令函数的第一个参数必须是 `tr: &mut Transaction`"),
                span: CommandSpan::Signature,
            },
        );
    }
    let fs = match build_fields(&f.params) {
        Ok(fs) => fs,
        Err(e) => return Err(e),
    };
    let (fields, params, inits, args) = command_lists(&fs);
    let ghost fv = pairs_view(fs@);
    assert(spec_fields(f.params@, f.params@.len()) == Ok::<
        Seq<(Seq<char>, Seq<char>)>,
        CommandErrorV,
    >(fv));
    assert(fv.len() == fs@.len());
    let g = if fs.len() == 0 {
        ""
    } else {
        "< 'a >"
    };
    let s = command_struct.as_str();
    let v = f.vis.as_str();
    let n = fs.len();
    let ghost gv: Seq<char> = if n == 0 {
        Seq::empty()
    } else {
        "< 'a >"@
    };
    proof {
        reveal_strlit("");
    }
    assert(g@ == gv);
    // The struct.
    let head = join_tokens(
        join_tokens(join_tokens(join_tokens("# [derive (Debug)]", v).as_str(), "struct").as_str(), s).as_str(),
        g,
    );
    let mut item_struct = head;
    item_struct.append(" ");
    item_struct.append(braced_text(fields.as_str()).as_str());
    assert(item_struct@ == join(join(join(join("# [derive (Debug)]"@, v@), "struct"@), s@), gv) + " "@
        + braced(spec_field_defs(fv, n as nat)));
    // The constructor.
    let mut ctor = String::from_str("fn new (");
    ctor.append(params.as_str());
    ctor.append(") -> Self { Self ");
    ctor.append(braced_text(inits.as_str()).as_str());
    ctor.append(" }");
    let mut item_impl = join_tokens(join_tokens(join_tokens("impl", g).as_str(), s).as_str(), g);
    item_impl.append(" ");
    item_impl.append(braced_text(join_tokens(v, ctor.as_str()).as_str()).as_str());
    assert(item_impl@ == join(join(join("impl"@, gv), s@), gv) + " "@ + braced(
        join(v@, "fn new ("@ + spec_ctor_params(fv, n as nat) + ") -> Self { Self "@ + braced(spec_ctor_inits(fv, n as nat)) + " }"@),
    ));
    // The command implementation.
    let mut item_command = String::from_str("# [async_trait :: async_trait] ");
    item_command.append(
        join_tokens(
            join_tokens(
                join_tokens(
                    join_tokens("impl", g).as_str(),
                    "mf_state :: transaction :: CommandGeneric < mf_model :: node_pool :: NodePool , mf_model :: schema :: Schema > for",
                ).as_str(),
                s,
            ).as_str(),
            g,
        ).as_str(),
    );
    item_command.append(
        " { async fn execute (& self , tr : & mut mf_state :: Transaction ,) -> TransformResult < () > { ",
    );
    item_command.append(f.ident.as_str());
    item_command.append(" (tr ,");
    let mut call = String::new();
    if n > 0 {
        call.append(" ");
        call.append(args.as_str());
    }
    item_command.append(call.as_str());
    item_command.append(") . await } fn name (& self) -> String { ");
    item_command.append(command_name_lit.as_str());
    item_command.append(" . to_string () } }");
    let mut code = join_tokens(f.tokens.as_str(), item_struct.as_str());
    code.append(" ");
    code.append(item_impl.as_str());
    code.append(" ");
    code.append(item_command.as_str());
    assert(code@ == spec_command_code(*f, command_struct@, command_name_lit@, fv));
    Ok(code)
}

/// `impl_command` where the struct name is valid: `None` when the function
/// is `async`, the attribute has no arguments and the default struct name is
/// not an identifier.
pub fn try_impl_command(f: &CommandFn, attr: &CommandAttr) -> (r: Option<Result<String, CommandError>>)
    ensures
        match r {
            None => f.is_async && !spec_struct_name_ok(*f, *attr),
            Some(res) => (f.is_async ==> spec_struct_name_ok(*f, *attr)) && command_result_view(res)
                == spec_impl_command(*f, *attr),
        },
{
    if f.is_async {
        if let CommandAttr::Empty = attr {
            let d = default_struct_ident(f.ident.as_str());
            if !parses_as_ident(d.as_str()) {
                return None;
            }
        }
    }
    Some(impl_command(f, attr))
}

/// Every parameter after `tr` becomes one field: when the parameters are
/// accepted, there is one checked pair per parameter after the first.
pub proof fn lemma_one_field_per_parameter(params: Seq<FnParam>, n: nat)
    requires
        1 <= n <= params.len(),
        spec_fields(params, n) is Ok,
    ensures
        spec_fields(params, n)->Ok_0.len() == n - 1,
    decreases n,
{
    if n > 1 {
        lemma_one_field_per_parameter(params, (n - 1) as nat);
    }
}

/// The default struct name always ends in `Command`.
pub proof fn lemma_default_name_ends_in_command(fn_name: Seq<char>)
    ensures
        spec_default_struct_name(fn_name).len() >= 7,
        spec_default_struct_name(fn_name).skip(spec_default_struct_name(fn_name).len() - 7)
            == "Command"@,
{
    reveal_strlit("Command");
    let p = spec_pascal_state(fn_name, fn_name.len()).0;
    assert((p + "Command"@).skip(p.len() as int) =~= "Command"@);
}

} // verus!
