//! Type utilities: recognising `Option<T>`, naming types, deciding which
//! field types the macros can turn into JSON values, and checking identifiers.

use vstd::prelude::*;
use vstd::string::*;
use crate::syntax::{
    SynGenericArgument, SynGenericArgumentV, SynPathArguments, SynPathArgumentsV, SynPathSegment,
    SynPathSegmentV, SynType, SynTypeKind, SynTypeKindV, SynTypeV, generic_arg_view, segment_view,
};
use crate::generator::tokens::{
    parses_as_ident, spec_parses_as_ident, spec_string_literal, string_literal,
};
use crate::text::{
    char_is_alphabetic, char_is_alphanumeric, push_char, spec_is_alphabetic, spec_is_alphanumeric,
    str_eq,
};

verus! {

broadcast use vstd::std_specs::vec::group_vec_axioms;

/// A valid identifier: non-empty, starting with a letter or `_`, and made of
/// letters, digits and `_` only.
pub open spec fn spec_is_valid_identifier(s: Seq<char>) -> bool {
    &&& s.len() > 0
    &&& (spec_is_alphabetic(s[0]) || s[0] == '_')
    &&& forall|i: int| 0 <= i < s.len() ==> (spec_is_alphanumeric(#[trigger] s[i]) || s[i] == '_')
}

/// Checks that `identifier` has the form of an identifier.
pub fn is_valid_identifier(identifier: &str) -> (r: bool)
    ensures
        r == spec_is_valid_identifier(identifier@),
{
    let n = identifier.unicode_len();
    if n == 0 {
        return false;
    }
    let first = identifier.get_char(0);
    if !char_is_alphabetic(first) && first != '_' {
        return false;
    }
    let mut i: usize = 0;
    while i < n
        invariant
            n == identifier@.len(),
            i <= n,
            forall|j: int|
                0 <= j < i ==> (spec_is_alphanumeric(#[trigger] identifier@[j]) || identifier@[j]
                    == '_'),
        decreases n - i,
    {
        let c = identifier.get_char(i);
        if !char_is_alphanumeric(c) && c != '_' {
            return false;
        }
        i = i + 1;
    }
    true
}

/// The last segment of a path type.
pub open spec fn spec_last_segment(t: SynTypeV) -> Option<SynPathSegmentV> {
    match t.kind {
        SynTypeKindV::Path(segs) => if segs.len() > 0 {
            Some(segs.last())
        } else {
            None
        },
        _ => None,
    }
}

/// A type whose path ends in `Option`.
pub open spec fn spec_is_option_type(t: SynTypeV) -> bool {
    match spec_last_segment(t) {
        Some(seg) => seg.ident == "Option"@,
        None => false,
    }
}

/// The `T` of `Option<T>`: the first generic argument of the last segment,
/// if that segment is `Option` and the argument is a type.
pub open spec fn spec_option_inner(t: SynTypeV) -> Option<SynTypeV> {
    match spec_last_segment(t) {
        Some(seg) => if seg.ident == "Option"@ {
            match seg.arguments {
                SynPathArgumentsV::AngleBracketed(args) => if args.len() > 0 {
                    match args[0] {
                        SynGenericArgumentV::Type(inner) => Some(inner),
                        SynGenericArgumentV::Other => None,
                    }
                } else {
                    None
                },
                _ => None,
            }
        } else {
            None
        },
        None => None,
    }
}

/// The last segment of a path type, by reference.
fn last_segment(ty: &SynType) -> (r: Option<&SynPathSegment>)
    ensures
        match r {
            Some(seg) => spec_last_segment(ty@) == Some(segment_view(*seg)),
            None => spec_last_segment(ty@) is None,
        },
{
    match &ty.kind {
        SynTypeKind::Path(segs) => {
            let n = segs.len();
            if n > 0 {
                Some(&segs[n - 1])
            } else {
                None
            }
        },
        _ => None,
    }
}

/// Whether `ty` is an `Option<T>` (its path ends in `Option`).
pub fn is_option_type(ty: &SynType) -> (r: bool)
    ensures
        r == spec_is_option_type(ty@),
{
    match last_segment(ty) {
        Some(seg) => str_eq(seg.ident.as_str(), "Option"),
        None => false,
    }
}

/// The `T` of `Option<T>`, or `None` when `ty` is not of that form.
pub fn extract_option_inner_type(ty: &SynType) -> (r: Option<&SynType>)
    ensures
        match r {
            Some(t) => spec_option_inner(ty@) == Some(t@),
            None => spec_option_inner(ty@) is None,
        },
{
    let seg = match last_segment(ty) {
        Some(seg) => seg,
        None => return None,
    };
    if !str_eq(seg.ident.as_str(), "Option") {
        return None;
    }
    match &seg.arguments {
        SynPathArguments::AngleBracketed(args) => {
            if args.len() == 0 {
                return None;
            }
            match &args[0] {
                SynGenericArgument::Type(inner) => Some(inner),
                SynGenericArgument::Other => None,
            }
        },
        _ => None,
    }
}

/// `s` with every ASCII space removed (`str::replace(" ", "")`).
pub open spec fn spec_remove_spaces(s: Seq<char>) -> Seq<char>
    decreases s.len(),
{
    if s.len() == 0 {
        s
    } else if s.last() == ' ' {
        spec_remove_spaces(s.drop_last())
    } else {
        spec_remove_spaces(s.drop_last()).push(s.last())
    }
}

/// Removes every ASCII space from `s`.
pub fn remove_spaces(s: &str) -> (r: String)
    ensures
        r@ == spec_remove_spaces(s@),
{
    let n = s.unicode_len();
    let mut out = String::new();
    let mut i: usize = 0;
    while i < n
        invariant
            n == s@.len(),
            i <= n,
            out@ == spec_remove_spaces(s@.take(i as int)),
        decreases n - i,
    {
        let c = s.get_char(i);
        proof {
            assert(s@.take(i + 1).drop_last() =~= s@.take(i as int));
        }
        if c != ' ' {
            push_char(&mut out, c);
        }
        i = i + 1;
    }
    assert(s@.take(n as int) =~= s@);
    out
}

/// The type texts (spaces removed) that the macros accept as basic types.
pub open spec fn spec_supported_basic_type_names() -> Seq<Seq<char>> {
    seq![
        "String"@,
        "str"@,
        "&str"@,
        "i32"@,
        "i64"@,
        "u32"@,
        "u64"@,
        "i8"@,
        "i16"@,
        "u8"@,
        "u16"@,
        "i128"@,
        "u128"@,
        "f32"@,
        "f64"@,
        "bool"@,
        "usize"@,
        "isize"@,
        "serde_json::Value"@,
        "Value"@,
        "uuid::Uuid"@,
        "Uuid"@,
        "Vec<u8>"@,
    ]
}

/// The type texts that the macros accept as basic types.
pub fn supported_basic_type_names() -> (r: Vec<&'static str>)
    ensures
        r@.map_values(|s: &str| s@) == spec_supported_basic_type_names(),
{
    let r = vec![
        "String",
        "str",
        "&str",
        "i32",
        "i64",
        "u32",
        "u64",
        "i8",
        "i16",
        "u8",
        "u16",
        "i128",
        "u128",
        "f32",
        "f64",
        "bool",
        "usize",
        "isize",
        "serde_json::Value",
        "Value",
        "uuid::Uuid",
        "Uuid",
        "Vec<u8>",
    ];
    assert(r@.map_values(|s: &str| s@) =~= spec_supported_basic_type_names());
    r
}

/// Whether `name` is one of `names`.
pub fn str_in_list(name: &str, names: &Vec<&'static str>) -> (r: bool)
    ensures
        r == names@.map_values(|s: &str| s@).contains(name@),
{
    let mut i: usize = 0;
    while i < names.len()
        invariant
            i <= names@.len(),
            forall|j: int| 0 <= j < i ==> names@[j]@ != name@,
        decreases names@.len() - i,
    {
        if str_eq(names[i], name) {
            assert(names@.map_values(|s: &str| s@)[i as int] == name@);
            return true;
        }
        i = i + 1;
    }
    proof {
        let m = names@.map_values(|s: &str| s@);
        if m.contains(name@) {
            let k = choose|k: int| 0 <= k < m.len() && m[k] == name@;
            assert(names@[k]@ == name@);
        }
    }
    false
}

/// A basic type: its token text without spaces is one of the supported names.
pub open spec fn spec_is_supported_basic_type(t: SynTypeV) -> bool {
    spec_supported_basic_type_names().contains(spec_remove_spaces(t.tokens))
}

/// A supported type: a basic type, or `Option<T>` with `T` basic.
pub open spec fn spec_is_supported_type(t: SynTypeV) -> bool {
    if spec_is_option_type(t) {
        match spec_option_inner(t) {
            Some(inner) => spec_is_supported_basic_type(inner),
            None => false,
        }
    } else {
        spec_is_supported_basic_type(t)
    }
}

/// Whether `ty` is one of the supported basic types (compared on its token
/// text with spaces removed).
pub fn is_supported_basic_type(ty: &SynType) -> (r: bool)
    ensures
        r == spec_is_supported_basic_type(ty@),
{
    let names = supported_basic_type_names();
    let text = remove_spaces(ty.tokens.as_str());
    str_in_list(text.as_str(), &names)
}

/// Whether `ty` is a supported basic type or an `Option` of one.
pub fn is_supported_type(ty: &SynType) -> (r: bool)
    ensures
        r == spec_is_supported_type(ty@),
{
    if is_option_type(ty) {
        match extract_option_inner_type(ty) {
            Some(inner) => is_supported_basic_type(inner),
            None => false,
        }
    } else {
        is_supported_basic_type(ty)
    }
}

/// The short name of a type: the last path segment with its generic
/// arguments named in turn, `"Unknown"` for an empty path, and the token
/// text for a type that is not a path.
pub open spec fn spec_type_name(t: SynTypeV) -> Seq<char>
    decreases t, 0nat,
{
    match t.kind {
        SynTypeKindV::Path(segs) => if segs.len() > 0 {
            spec_segment_name(segs[segs.len() - 1])
        } else {
            "Unknown"@
        },
        _ => t.tokens,
    }
}

/// A segment's name: its identifier, followed by `<args>` when it has
/// angle-bracketed arguments.
pub open spec fn spec_segment_name(seg: SynPathSegmentV) -> Seq<char>
    decreases seg, 1nat,
{
    match seg.arguments {
        SynPathArgumentsV::AngleBracketed(args) => seg.ident + "<"@ + spec_arg_names(args, args.len())
            + ">"@,
        _ => seg.ident,
    }
}

/// The names of the first `n` generic arguments, joined by `", "`; an
/// argument that is not a type is named `"?"`.
pub open spec fn spec_arg_names(args: Seq<SynGenericArgumentV>, n: nat) -> Seq<char>
    decreases args, n,
{
    if n == 0 || n > args.len() {
        Seq::empty()
    } else {
        let last = match args[n - 1] {
            SynGenericArgumentV::Type(t) => spec_type_name(t),
            SynGenericArgumentV::Other => "?"@,
        };
        if n == 1 {
            last
        } else {
            spec_arg_names(args, (n - 1) as nat) + ", "@ + last
        }
    }
}

/// The short name of a type, for messages and generated code.
pub fn extract_type_name(ty: &SynType) -> (r: String)
    ensures
        r@ == spec_type_name(ty@),
    decreases ty, 0nat,
{
    match &ty.kind {
        SynTypeKind::Path(segs) => {
            let n = segs.len();
            if n > 0 {
                segment_name(&segs[n - 1])
            } else {
                String::from_str("Unknown")
            }
        },
        _ => ty.tokens.clone(),
    }
}

/// The name of a path segment (see `spec_segment_name`).
#[verifier::loop_isolation(false)]
fn segment_name(seg: &SynPathSegment) -> (r: String)
    ensures
        r@ == spec_segment_name(segment_view(*seg)),
    decreases seg, 1nat,
{
    match &seg.arguments {
        SynPathArguments::AngleBracketed(args) => {
            let ghost argsv = segment_view(*seg).arguments->AngleBracketed_0;
            let mut out = seg.ident.clone();
            out.append("<");
            let ghost prefix = out@;
            let mut i: usize = 0;
            while i < args.len()
                invariant
                    i <= args@.len(),
                    argsv.len() == args@.len(),
                    out@ == prefix + spec_arg_names(argsv, i as nat),
                decreases args@.len() - i,
            {
                assert(argsv[i as int] == generic_arg_view(args@[i as int]));
                if i > 0 {
                    out.append(", ");
                }
                match &args[i] {
                    SynGenericArgument::Type(t) => {
                        let name = extract_type_name(t);
                        out.append(name.as_str());
                    },
                    SynGenericArgument::Other => {
                        out.append("?");
                    },
                }
                proof {
                    if i == 0 {
                        assert(spec_arg_names(argsv, 0) =~= Seq::<char>::empty());
                    }
                }
                i = i + 1;
            }
            out.append(">");
            out
        },
        _ => seg.ident.clone(),
    }
}

/// The code that turns the field `self.<name>` into a JSON value (as token
/// text): an `Option` maps its content and falls back to `Null`; any other
/// type is converted directly.
pub open spec fn spec_field_conversion(name: Seq<char>, t: SynTypeV) -> Seq<char> {
    if spec_is_option_type(t) {
        "self . "@ + name
            + " . as_ref () . map (| v | serde_json :: to_value (v) . unwrap_or (JsonValue :: Null)) . unwrap_or (JsonValue :: Null)"@
    } else {
        "serde_json :: to_value (& self . "@ + name + ") . unwrap_or (JsonValue :: Null)"@
    }
}

/// The code converting the field `self.<field_name>` of this type into a
/// JSON value.
pub fn generate_field_conversion(field_name: &str, field_type: &SynType) -> (r: String)
    ensures
        r@ == spec_field_conversion(field_name@, field_type@),
{
    if is_option_type(field_type) {
        let mut s = String::from_str("self . ");
        s.append(field_name);
        s.append(
            " . as_ref () . map (| v | serde_json :: to_value (v) . unwrap_or (JsonValue :: Null)) . unwrap_or (JsonValue :: Null)",
        );
        s
    } else {
        let mut s = String::from_str("serde_json :: to_value (& self . ");
        s.append(field_name);
        s.append(") . unwrap_or (JsonValue :: Null)");
        s
    }
}

/// The imports that generated conversion methods rely on (as token text).
pub fn generate_imports() -> (r: &'static str)
    ensures
        r@ == "use mf_model :: node_type :: NodeSpec ; use mf_model :: schema :: AttributeSpec ; use std :: collections :: HashMap ; use serde_json :: Value as JsonValue ;"@,
{
    "use mf_model :: node_type :: NodeSpec ; use mf_model :: schema :: AttributeSpec ; use std :: collections :: HashMap ; use serde_json :: Value as JsonValue ;"
}

/// The statement setting the attribute of `field_name` on the object named
/// `target` (`target` itself when `target` is not an identifier).
pub open spec fn spec_attr_setter_code(field_name: Seq<char>, t: SynTypeV, target: Seq<char>) -> Seq<
    char,
> {
    (if spec_parses_as_ident(target) {
        target
    } else {
        "target"@
    }) + " . set_attr ("@ + spec_string_literal(field_name) + " , Some ("@ + spec_field_conversion(
        field_name,
        t,
    ) + ")) ;"@
}

/// The statement setting the attribute of a field on the target object.
pub fn generate_attr_setter_code(field_name: &str, field_type: &SynType, target: &str) -> (r: String)
    ensures
        r@ == spec_attr_setter_code(field_name@, field_type@, target@),
{
    let conversion = generate_field_conversion(field_name, field_type);
    let mut s = if parses_as_ident(target) {
        String::from_str(target)
    } else {
        String::from_str("target")
    };
    s.append(" . set_attr (");
    s.append(string_literal(field_name).as_str());
    s.append(" , Some (");
    s.append(conversion.as_str());
    s.append(")) ;");
    s
}

} // verus!
