//! The generator of a Mark's conversion methods: `mark_definition` and
//! `to_mark`, building the mark, `from`, reading the struct back from a mark,
//! `default_instance`, and the `From` conversions both ways.

use vstd::prelude::*;
use vstd::string::*;
use crate::common::error::{MacroError, MacroErrorV, MacroResult};
use crate::generator::CodeGenerator;
use crate::generator::doc_attributes::{
    DEFAULT_INSTANCE_DOC, FROM_MARK_DOC, INTO_MARK_DOC, MARK_DEFINITION_DOC, MARK_FROM_DOC,
    TO_MARK_DOC,
};
use crate::generator::node_generator::{
    braced, braced_text, inner_type_name, lit, spec_bad_field_name, spec_inner_type_name,
};
use crate::generator::tokens::{
    i64_literal, parses_as_ident, parses_as_type, spec_i64_literal, spec_parses_as_ident,
    spec_parses_as_type, string_literal,
};
use crate::parser::attribute_parser::{
    FieldConfig, FieldConfigV, MarkConfig, MarkConfigV, field_configs_view, string_result_view,
};
use crate::parser::default_value::{DefaultValueType, DefaultValueTypeV};
use crate::syntax::{
    SpanRef, SynData, SynDataV, SynDeriveInput, SynDeriveInputV, SynFieldV, SynFields, SynFieldsV,
    SynGenericArgument, SynGenericArgumentV, SynPathArguments, SynPathArgumentsV, SynPathSegment,
    SynPathSegmentV, SynType, SynTypeKind, SynTypeKindV, SynTypeV, fields_view, generic_arg_view,
    segment_view,
};
use crate::text::{concat, spec_starts_with, starts_with, str_eq};

verus! {

broadcast use vstd::std_specs::vec::group_vec_axioms;

// ------------------------------------------------------------ type names

/// A type's name as the Mark generator writes it: path segments joined by
/// `::`, each with its type arguments (other arguments named by the empty
/// text); `()` for the unit type and `Unknown` for any other type.
pub open spec fn spec_mark_type_name(t: SynTypeV) -> Seq<char>
    decreases t, 0nat,
{
    match t.kind {
        SynTypeKindV::UnitTuple => "()"@,
        SynTypeKindV::Path(segs) => spec_mark_segments_name(segs, segs.len()),
        SynTypeKindV::Other => "Unknown"@,
    }
}

/// The first `n` segments, named and joined by `::`.
pub open spec fn spec_mark_segments_name(segs: Seq<SynPathSegmentV>, n: nat) -> Seq<char>
    decreases segs, n,
{
    if n == 0 || n > segs.len() {
        Seq::empty()
    } else if n == 1 {
        spec_mark_segment_name(segs[0])
    } else {
        spec_mark_segments_name(segs, (n - 1) as nat) + "::"@ + spec_mark_segment_name(segs[n - 1])
    }
}

/// A segment's name with its arguments.
pub open spec fn spec_mark_segment_name(seg: SynPathSegmentV) -> Seq<char>
    decreases seg, 1nat,
{
    match seg.arguments {
        SynPathArgumentsV::AngleBracketed(args) => if args.len() == 0 {
            seg.ident
        } else {
            seg.ident + "<"@ + spec_mark_args_name(args, args.len()) + ">"@
        },
        _ => seg.ident,
    }
}

/// The first `n` arguments, named and joined by `", "`.
pub open spec fn spec_mark_args_name(args: Seq<SynGenericArgumentV>, n: nat) -> Seq<char>
    decreases args, n,
{
    if n == 0 || n > args.len() {
        Seq::empty()
    } else {
        let last = match args[n - 1] {
            SynGenericArgumentV::Type(t) => spec_mark_type_name(t),
            SynGenericArgumentV::Other => Seq::empty(),
        };
        if n == 1 {
            last
        } else {
            spec_mark_args_name(args, (n - 1) as nat) + ", "@ + last
        }
    }
}

// --------------------------------------------------------------- reading

/// The code read from a mark attribute for a basic type, before the
/// fallback for a missing value.
pub open spec fn spec_mark_core(t: Seq<char>) -> Option<Seq<char>> {
    if t == "String"@ {
        Some(" . and_then (| v | v . as_str ()) . map (| s | s . to_string ())"@)
    } else if t == "i8"@ || t == "i16"@ || t == "i32"@ || t == "i128"@ || t == "isize"@ {
        Some(" . and_then (| v | v . as_i64 ()) . map (| i | i as "@ + t + ")"@)
    } else if t == "i64"@ {
        Some(" . and_then (| v | v . as_i64 ())"@)
    } else if t == "u8"@ || t == "u16"@ || t == "u32"@ || t == "u128"@ || t == "usize"@ {
        Some(" . and_then (| v | v . as_u64 ()) . map (| u | u as "@ + t + ")"@)
    } else if t == "u64"@ {
        Some(" . and_then (| v | v . as_u64 ())"@)
    } else if t == "f32"@ {
        Some(" . and_then (| v | v . as_f64 ()) . map (| f | f as f32)"@)
    } else if t == "f64"@ {
        Some(" . and_then (| v | v . as_f64 ())"@)
    } else if t == "bool"@ {
        Some(" . and_then (| v | v . as_bool ())"@)
    } else {
        None
    }
}

/// The code reading the attribute `l` (a string literal) of a mark as a
/// value of type `t`.
pub open spec fn spec_mark_extraction(l: Seq<char>, t: Seq<char>) -> Seq<char> {
    let get = "mark . attrs . attrs . get ("@ + l + ")"@;
    match spec_mark_core(t) {
        Some(c) => get + c + " . unwrap_or_default ()"@,
        None => if t == "serde_json::Value"@ || t == "Value"@ {
            get + " . cloned () . unwrap_or (serde_json :: Value :: Null)"@
        } else if t == "uuid::Uuid"@ || t == "Uuid"@ {
            get
                + " . and_then (| v | v . as_str ()) . and_then (| s | uuid :: Uuid :: parse_str (s) . ok ()) . unwrap_or_else (uuid :: Uuid :: new_v4)"@
        } else if t == "Vec<u8>"@ {
            get
                + " . and_then (| v | v . as_array ()) . map (| arr | arr . iter () . filter_map (| v | v . as_u64 () . map (| u | u as u8)) . collect ()) . unwrap_or_default ()"@
        } else if t == "Vec<String>"@ {
            get
                + " . and_then (| v | v . as_array ()) . map (| arr | arr . iter () . filter_map (| v | v . as_str () . map (| s | s . to_string ())) . collect ()) . unwrap_or_default ()"@
        } else if spec_starts_with(t, "Option<"@) {
            let inner = spec_inner_type_name(t);
            match spec_mark_core(inner) {
                Some(c) => get + c,
                None => if inner == "serde_json::Value"@ || inner == "Value"@ {
                    get + " . cloned ()"@
                } else if inner == "uuid::Uuid"@ || inner == "Uuid"@ {
                    get
                        + " . and_then (| v | v . as_str ()) . and_then (| s | uuid :: Uuid :: parse_str (s) . ok ())"@
                } else {
                    get + " . and_then (| v | serde_json :: from_value (v . clone ()) . ok ())"@
                },
            }
        } else {
            get + " . and_then (| v | serde_json :: from_value (v . clone ()) . ok ()) . unwrap_or_default ()"@
        },
    }
}

// -------------------------------------------------------------- defaults

/// The integer type names.
pub open spec fn spec_is_integer_name(t: Seq<char>) -> bool {
    t == "i8"@ || t == "i16"@ || t == "i32"@ || t == "i64"@ || t == "i128"@ || t == "isize"@ || t
        == "u8"@ || t == "u16"@ || t == "u32"@ || t == "u64"@ || t == "u128"@ || t == "usize"@
}

/// The JSON value of a default given in `#[attr(default = ..)]`.
pub open spec fn spec_default_from_attr(d: DefaultValueTypeV) -> Seq<char> {
    match d {
        DefaultValueTypeV::String(s) => "serde_json :: json ! ("@ + lit(s) + ")"@,
        DefaultValueTypeV::Integer(i) => "serde_json :: json ! ("@ + spec_i64_literal(i as i64) + ")"@,
        DefaultValueTypeV::Float(f) => "serde_json :: json ! ("@ + f + ")"@,
        DefaultValueTypeV::Boolean(b) => if b {
            "serde_json :: json ! (true)"@
        } else {
            "serde_json :: json ! (false)"@
        },
        DefaultValueTypeV::Json(j) => "serde_json :: from_str ("@ + lit(j)
            + ") . unwrap_or_else (| _ | serde_json :: json ! (null))"@,
        DefaultValueTypeV::Null => "serde_json :: json ! (null)"@,
    }
}

/// The JSON value of the default of a type.
pub open spec fn spec_type_default_value(t: Seq<char>) -> Seq<char> {
    if t == "String"@ {
        "serde_json :: json ! (String :: default ())"@
    } else if spec_is_integer_name(t) {
        "serde_json :: json ! (0)"@
    } else if t == "f32"@ || t == "f64"@ {
        "serde_json :: json ! (0.0)"@
    } else if t == "bool"@ {
        "serde_json :: json ! (false)"@
    } else if t == "serde_json::Value"@ || t == "Value"@ {
        "serde_json :: json ! (null)"@
    } else if t == "uuid::Uuid"@ || t == "Uuid"@ {
        "serde_json :: json ! (uuid :: Uuid :: new_v4 () . to_string ())"@
    } else if t == "Vec<u8>"@ {
        "serde_json :: json ! (Vec :: < u8 > :: new ())"@
    } else if t == "Vec<String>"@ {
        "serde_json :: json ! (Vec :: < String > :: new ())"@
    } else if spec_starts_with(t, "Option<"@) {
        "serde_json :: json ! (null)"@
    } else if spec_parses_as_type(t) {
        "serde_json :: to_value (< "@ + t
            + " as Default > :: default ()) . unwrap_or_else (| _ | serde_json :: json ! (null))"@
    } else {
        "serde_json :: json ! (null)"@
    }
}

/// The default JSON value of an `#[attr]` field: the one it gives, or that
/// of its type.
pub open spec fn spec_field_default_value(fc: FieldConfigV) -> Seq<char> {
    match fc.default_value {
        Some(d) => spec_default_from_attr(d.value_type),
        None => spec_type_default_value(fc.type_text),
    }
}

/// The entry of an `#[attr]` field in the mark's attribute specification.
pub open spec fn spec_mark_field_spec(fc: FieldConfigV) -> Seq<char> {
    "attrs_map . insert ("@ + lit(fc.name)
        + " . to_string () , mf_model :: schema :: AttributeSpec { default : Some ("@
        + spec_field_default_value(fc) + ") }) ;"@
}

/// The entries of the first `n` fields, one after another.
pub open spec fn spec_mark_field_specs(fcs: Seq<FieldConfigV>, n: nat) -> Seq<char>
    decreases n,
{
    if n == 0 {
        Seq::empty()
    } else if n == 1 {
        spec_mark_field_spec(fcs[0])
    } else {
        spec_mark_field_specs(fcs, (n - 1) as nat) + " "@ + spec_mark_field_spec(fcs[n - 1])
    }
}

/// The statements that build the mark specification `spec`: its
/// attributes are an empty `imbl` map when there are no `#[attr]` fields.
pub open spec fn spec_mark_spec_code(fcs: Seq<FieldConfigV>) -> Seq<char> {
    (if fcs.len() == 0 {
        "let attrs = Some (imbl :: HashMap :: new ()) ;"@
    } else {
        "let mut attrs_map = std :: collections :: HashMap :: new () ; "@ + spec_mark_field_specs(
            fcs,
            fcs.len(),
        ) + " let attrs = Some (attrs_map) ;"@
    })
        + " let spec = mf_model :: mark_definition :: MarkSpec { attrs , excludes : None , group : None , spanning : None , desc : None , } ;"@
}

/// The refusal of a configuration without `mark_type`.
pub open spec fn spec_missing_mark_type() -> MacroErrorV {
    MacroErrorV::ValidationError {
        message: "Mark 配置缺少必需的 mark_type 属性"@,
        span: Some(SpanRef::Input),
    }
}

/// A method building the mark: `header` followed by the body shared by
/// `mark_definition` and `to_mark`.
pub open spec fn spec_mark_builder(header: Seq<char>, c: MarkConfigV) -> Result<
    Seq<char>,
    MacroErrorV,
> {
    match c.mark_type {
        None => Err(spec_missing_mark_type()),
        Some(mt) => Ok(
            header + "use std :: collections :: HashMap ; use serde_json :: Value as JsonValue ;"@
                + " "@ + spec_mark_spec_code(c.attr_fields) + " mf_core :: mark :: Mark :: new ("@
                + lit(mt) + " , spec) }"@,
        ),
    }
}

/// The `mark_definition` method.
pub open spec fn spec_mark_definition_method(c: MarkConfigV) -> Result<Seq<char>, MacroErrorV> {
    spec_mark_builder(
        MARK_DEFINITION_DOC@ + " pub fn mark_definition () -> mf_core :: mark :: Mark { "@,
        c,
    )
}

/// The `to_mark` method.
pub open spec fn spec_to_mark_method(c: MarkConfigV) -> Result<Seq<char>, MacroErrorV> {
    spec_mark_builder(TO_MARK_DOC@ + " pub fn to_mark (& self) -> mf_core :: mark :: Mark { "@, c)
}

// ------------------------------------------------------------ all fields

/// A named field of the struct: its name, its type name, and the position
/// of its `#[attr]` configuration, if it has one.
pub ghost struct FieldInfoV {
    pub name: Seq<char>,
    pub type_text: Seq<char>,
    pub config: Option<int>,
}

/// The position of the first configuration with this name.
pub open spec fn spec_config_index(fcs: Seq<FieldConfigV>, name: Seq<char>, k: int) -> Option<int>
    decreases fcs.len() - k,
{
    if k < 0 || k >= fcs.len() {
        None
    } else if fcs[k].name == name {
        Some(k)
    } else {
        spec_config_index(fcs, name, k + 1)
    }
}

/// The named fields among the first `n`, in order.
pub open spec fn spec_field_infos(fields: Seq<SynFieldV>, fcs: Seq<FieldConfigV>, n: nat) -> Seq<
    FieldInfoV,
>
    decreases n,
{
    if n == 0 {
        Seq::empty()
    } else {
        let acc = spec_field_infos(fields, fcs, (n - 1) as nat);
        let f = fields[n - 1];
        match f.ident {
            None => acc,
            Some(name) => acc.push(
                FieldInfoV {
                    name,
                    type_text: spec_mark_type_name(f.ty),
                    config: spec_config_index(fcs, name, 0),
                },
            ),
        }
    }
}

/// Every named field of the struct; a body that is not a struct with named
/// fields (or a unit struct) is refused.
pub open spec fn spec_extract_all_fields(input: SynDeriveInputV, fcs: Seq<FieldConfigV>) -> Result<
    Seq<FieldInfoV>,
    MacroErrorV,
> {
    let refuse = |m: Seq<char>| MacroErrorV::ValidationError { message: m, span: Some(SpanRef::Input) };
    match input.data {
        SynDataV::Struct(SynFieldsV::Named(fs)) => Ok(spec_field_infos(fs, fcs, fs.len())),
        SynDataV::Struct(SynFieldsV::Unnamed) => Err(refuse("不支持元组结构体"@)),
        SynDataV::Struct(SynFieldsV::Unit) => Ok(Seq::empty()),
        _ => Err(refuse("只支持结构体类型"@)),
    }
}

/// Whether `sub` occurs in `s`.
pub open spec fn spec_contains_text(s: Seq<char>, sub: Seq<char>) -> bool {
    exists|i: int| 0 <= i && i + sub.len() <= s.len() && #[trigger] s.subrange(i, i + sub.len()) == sub
}

/// The value of a field without `#[attr]` in `from`.
pub open spec fn spec_non_attr_default(t: Seq<char>) -> Seq<char> {
    if t == "String"@ {
        "String :: default ()"@
    } else if spec_is_integer_name(t) {
        "0"@
    } else if t == "f32"@ || t == "f64"@ {
        "0.0"@
    } else if t == "bool"@ {
        "false"@
    } else if t == "uuid::Uuid"@ || t == "Uuid"@ {
        "uuid :: Uuid :: new_v4 ()"@
    } else if t == "Vec<u8>"@ || t == "Vec<String>"@ {
        "Vec :: new ()"@
    } else if t == "()"@ {
        "()"@
    } else if spec_starts_with(t, "Option<"@) {
        "None"@
    } else if spec_contains_text(t, "PhantomData"@) {
        "std :: marker :: PhantomData"@
    } else if t == "Unknown"@ {
        "Default :: default ()"@
    } else if spec_parses_as_type(t) {
        "< "@ + t + " as Default > :: default ()"@
    } else {
        "Default :: default ()"@
    }
}

/// The initialiser of a field in `from`.
pub open spec fn spec_mark_field_init(info: FieldInfoV, fcs: Seq<FieldConfigV>) -> Result<
    Seq<char>,
    MacroErrorV,
> {
    if !spec_parses_as_ident(info.name) {
        Err(spec_bad_field_name(info.name, SpanRef::Input))
    } else {
        Ok(
            info.name + " : "@ + match info.config {
                Some(k) => spec_mark_extraction(lit(fcs[k].name), fcs[k].type_text),
                None => spec_non_attr_default(info.type_text),
            },
        )
    }
}

/// The initialisers of the first `n` fields, separated by commas.
pub open spec fn spec_mark_field_inits(
    infos: Seq<FieldInfoV>,
    fcs: Seq<FieldConfigV>,
    n: nat,
) -> Result<Seq<char>, MacroErrorV>
    decreases n,
{
    if n == 0 {
        Ok(Seq::empty())
    } else {
        match spec_mark_field_inits(infos, fcs, (n - 1) as nat) {
            Err(e) => Err(e),
            Ok(acc) => match spec_mark_field_init(infos[n - 1], fcs) {
                Err(e) => Err(e),
                Ok(s) => Ok(
                    if n == 1 {
                        s
                    } else {
                        acc + " , "@ + s
                    },
                ),
            },
        }
    }
}

/// The `from` method.
pub open spec fn spec_mark_from_method(input: SynDeriveInputV, c: MarkConfigV) -> Result<
    Seq<char>,
    MacroErrorV,
> {
    match c.mark_type {
        None => Err(spec_missing_mark_type()),
        Some(mt) => match spec_extract_all_fields(input, c.attr_fields) {
            Err(e) => Err(e),
            Ok(infos) => match spec_mark_field_inits(infos, c.attr_fields, infos.len()) {
                Err(e) => Err(e),
                Ok(inits) => Ok(
                    MARK_FROM_DOC@ + " pub fn from (mark : & mf_model :: mark :: Mark) -> Result < Self , String > { use serde_json :: Value as JsonValue ; if mark . r#type != "@
                        + lit(mt)
                        + " { return Err (format ! (\"标记类型不匹配: 期望 '{}', 实际 '{}'\" , "@
                        + lit(mt) + " , mark . r#type)) ; } Ok (Self "@ + braced(inits) + ") }"@,
                ),
            },
        },
    }
}

/// The value given in `#[attr(default = ..)]`, as a value of the field's
/// type `target`.
pub open spec fn spec_instance_from_attr(d: DefaultValueTypeV, target: Seq<char>) -> Seq<char> {
    match d {
        DefaultValueTypeV::String(s) => lit(s) + " . to_string ()"@,
        DefaultValueTypeV::Integer(i) => {
            let l = spec_i64_literal(i as i64);
            if target == "i64"@ {
                l
            } else if spec_is_integer_name(target) || target == "f32"@ || target == "f64"@ {
                l + " as "@ + target
            } else {
                l + " as i32"@
            }
        },
        DefaultValueTypeV::Float(f) => if target == "f32"@ {
            f + " as f32"@
        } else {
            f
        },
        DefaultValueTypeV::Boolean(b) => if b {
            "true"@
        } else {
            "false"@
        },
        DefaultValueTypeV::Json(_) => "String :: default ()"@,
        DefaultValueTypeV::Null => "String :: default ()"@,
    }
}

/// The default value of a type in `default_instance`; a type that cannot
/// be read is refused.
pub open spec fn spec_instance_type_default(t: Seq<char>) -> Result<Seq<char>, MacroErrorV> {
    if t == "String"@ {
        Ok("String :: default ()"@)
    } else if spec_is_integer_name(t) {
        Ok("0"@)
    } else if t == "f32"@ || t == "f64"@ {
        Ok("0.0"@)
    } else if t == "bool"@ {
        Ok("false"@)
    } else if t == "serde_json::Value"@ || t == "Value"@ {
        Ok("serde_json :: Value :: Null"@)
    } else if t == "uuid::Uuid"@ || t == "Uuid"@ {
        Ok("uuid :: Uuid :: new_v4 ()"@)
    } else if t == "Vec<u8>"@ || t == "Vec<String>"@ {
        Ok("Vec :: new ()"@)
    } else if t == "()"@ {
        Ok("()"@)
    } else if spec_starts_with(t, "Option<"@) {
        Ok("None"@)
    } else if t == "Unknown"@ {
        Ok("Default :: default ()"@)
    } else if spec_parses_as_type(t) {
        Ok("< "@ + t + " as Default > :: default ()"@)
    } else {
        Err(
            MacroErrorV::ParseError {
                message: "无效的类型名称: "@ + t,
                span: Some(SpanRef::Input),
            },
        )
    }
}

/// The initialiser of a field in `default_instance`.
pub open spec fn spec_instance_field_init(info: FieldInfoV, fcs: Seq<FieldConfigV>) -> Result<
    Seq<char>,
    MacroErrorV,
> {
    if !spec_parses_as_ident(info.name) {
        Err(spec_bad_field_name(info.name, SpanRef::Input))
    } else {
        let value = match info.config {
            Some(k) => match fcs[k].default_value {
                Some(d) => Ok(spec_instance_from_attr(d.value_type, fcs[k].type_text)),
                None => spec_instance_type_default(info.type_text),
            },
            None => spec_instance_type_default(info.type_text),
        };
        match value {
            Err(e) => Err(e),
            Ok(v) => Ok(info.name + " : "@ + v),
        }
    }
}

/// The `default_instance` initialisers of the first `n` fields.
pub open spec fn spec_instance_field_inits(
    infos: Seq<FieldInfoV>,
    fcs: Seq<FieldConfigV>,
    n: nat,
) -> Result<Seq<char>, MacroErrorV>
    decreases n,
{
    if n == 0 {
        Ok(Seq::empty())
    } else {
        match spec_instance_field_inits(infos, fcs, (n - 1) as nat) {
            Err(e) => Err(e),
            Ok(acc) => match spec_instance_field_init(infos[n - 1], fcs) {
                Err(e) => Err(e),
                Ok(s) => Ok(
                    if n == 1 {
                        s
                    } else {
                        acc + " , "@ + s
                    },
                ),
            },
        }
    }
}

/// The `default_instance` method.
pub open spec fn spec_default_instance_method(input: SynDeriveInputV, c: MarkConfigV) -> Result<
    Seq<char>,
    MacroErrorV,
> {
    match spec_extract_all_fields(input, c.attr_fields) {
        Err(e) => Err(e),
        Ok(infos) => match spec_instance_field_inits(infos, c.attr_fields, infos.len()) {
            Err(e) => Err(e),
            Ok(inits) => Ok(
                DEFAULT_INSTANCE_DOC@ + " fn default_instance () -> Self { Self "@ + braced(inits)
                    + " }"@,
            ),
        },
    }
}

/// The code generated for a Mark: an impl block with the four methods, and
/// the `From` conversions between the struct and marks.
pub open spec fn spec_mark_generate(input: SynDeriveInputV, c: MarkConfigV) -> Result<
    Seq<char>,
    MacroErrorV,
> {
    match spec_mark_definition_method(c) {
        Err(e) => Err(e),
        Ok(d) => match spec_to_mark_method(c) {
            Err(e) => Err(e),
            Ok(t) => match spec_mark_from_method(input, c) {
                Err(e) => Err(e),
                Ok(f) => match spec_default_instance_method(input, c) {
                    Err(e) => Err(e),
                    Ok(i) => {
                        let s = input.ident;
                        Ok(
                            "impl "@ + s + " { "@ + d + " "@ + t + " "@ + f + " "@ + i
                                + " } impl From < "@ + s
                                + " > for mf_core :: mark :: Mark { "@ + INTO_MARK_DOC@
                                + " fn from (_value : "@ + s
                                + ") -> Self { "@ + s
                                + " :: mark_definition () } } impl From < mf_model :: mark :: Mark > for "@
                                + s + " { "@ + FROM_MARK_DOC@
                                + " fn from (mark : mf_model :: mark :: Mark) -> Self { "@ + s
                                + " :: from (& mark) . unwrap_or_else (| _ | { Self :: default_instance () }) } }"@,
                        )
                    },
                },
            },
        },
    }
}

// ------------------------------------------------------------------ code

/// A type's name as the Mark generator writes it (see `spec_mark_type_name`).
#[verifier::loop_isolation(false)]
pub fn mark_type_name(ty: &SynType) -> (r: String)
    ensures
        r@ == spec_mark_type_name(ty@),
    decreases ty, 0nat,
{
    match &ty.kind {
        SynTypeKind::UnitTuple => String::from_str("()"),
        SynTypeKind::Path(segs) => {
            let ghost sv = ty@.kind->Path_0;
            let n = segs.len();
            let mut out = String::new();
            let mut i: usize = 0;
            while i < n
                invariant
                    n == segs@.len(),
                    sv.len() == n,
                    i <= n,
                    out@ == spec_mark_segments_name(sv, i as nat),
                decreases n - i,
            {
                assert(sv[i as int] == segment_view(segs@[i as int]));
                let name = mark_segment_name(&segs[i]);
                if i > 0 {
                    out.append("::");
                }
                out.append(name.as_str());
                proof {
                    if i == 0 {
                        assert(out@ =~= name@);
                    }
                }
                i = i + 1;
            }
            out
        },
        SynTypeKind::Other => String::from_str("Unknown"),
    }
}

/// A segment's name with its arguments (see `spec_mark_segment_name`).
#[verifier::loop_isolation(false)]
fn mark_segment_name(seg: &SynPathSegment) -> (r: String)
    ensures
        r@ == spec_mark_segment_name(segment_view(*seg)),
    decreases seg, 1nat,
{
    match &seg.arguments {
        SynPathArguments::AngleBracketed(args) => {
            let ghost argsv = segment_view(*seg).arguments->AngleBracketed_0;
            if args.len() == 0 {
                return seg.ident.clone();
            }
            let mut inner = String::new();
            let mut i: usize = 0;
            while i < args.len()
                invariant
                    i <= args@.len(),
                    argsv.len() == args@.len(),
                    inner@ == spec_mark_args_name(argsv, i as nat),
                decreases args@.len() - i,
            {
                assert(argsv[i as int] == generic_arg_view(args@[i as int]));
                if i > 0 {
                    inner.append(", ");
                }
                match &args[i] {
                    SynGenericArgument::Type(t) => {
                        let name = mark_type_name(t);
                        inner.append(name.as_str());
                    },
                    SynGenericArgument::Other => {},
                }
                proof {
                    if i == 0 {
                        assert(spec_mark_args_name(argsv, 0) =~= Seq::<char>::empty());
                        assert(inner@ =~= spec_mark_args_name(argsv, 1));
                    }
                }
                i = i + 1;
            }
            let mut out = seg.ident.clone();
            out.append("<");
            out.append(inner.as_str());
            out.append(">");
            out
        },
        _ => seg.ident.clone(),
    }
}

/// The code read for a basic type (see `spec_mark_core`).
fn mark_core(t: &str) -> (r: Option<String>)
    ensures
        opt_string_view(r) == spec_mark_core(t@),
{
    if str_eq(t, "String") {
        Some(String::from_str(" . and_then (| v | v . as_str ()) . map (| s | s . to_string ())"))
    } else if str_eq(t, "i8") || str_eq(t, "i16") || str_eq(t, "i32") || str_eq(t, "i128") || str_eq(
        t,
        "isize",
    ) {
        let mut s = String::from_str(" . and_then (| v | v . as_i64 ()) . map (| i | i as ");
        s.append(t);
        s.append(")");
        Some(s)
    } else if str_eq(t, "i64") {
        Some(String::from_str(" . and_then (| v | v . as_i64 ())"))
    } else if str_eq(t, "u8") || str_eq(t, "u16") || str_eq(t, "u32") || str_eq(t, "u128") || str_eq(
        t,
        "usize",
    ) {
        let mut s = String::from_str(" . and_then (| v | v . as_u64 ()) . map (| u | u as ");
        s.append(t);
        s.append(")");
        Some(s)
    } else if str_eq(t, "u64") {
        Some(String::from_str(" . and_then (| v | v . as_u64 ())"))
    } else if str_eq(t, "f32") {
        Some(String::from_str(" . and_then (| v | v . as_f64 ()) . map (| f | f as f32)"))
    } else if str_eq(t, "f64") {
        Some(String::from_str(" . and_then (| v | v . as_f64 ())"))
    } else if str_eq(t, "bool") {
        Some(String::from_str(" . and_then (| v | v . as_bool ())"))
    } else {
        None
    }
}

pub open spec fn opt_string_view(o: Option<String>) -> Option<Seq<char>> {
    match o {
        Some(s) => Some(s@),
        None => None,
    }
}

/// The code reading a mark attribute (see `spec_mark_extraction`).
fn mark_extraction(l: &str, t: &str) -> (r: String)
    ensures
        r@ == spec_mark_extraction(l@, t@),
{
    let mut get = String::from_str("mark . attrs . attrs . get (");
    get.append(l);
    get.append(")");
    match mark_core(t) {
        Some(c) => {
            get.append(c.as_str());
            get.append(" . unwrap_or_default ()");
            return get;
        },
        None => {},
    }
    if str_eq(t, "serde_json::Value") || str_eq(t, "Value") {
        get.append(" . cloned () . unwrap_or (serde_json :: Value :: Null)");
    } else if str_eq(t, "uuid::Uuid") || str_eq(t, "Uuid") {
        get.append(
            " . and_then (| v | v . as_str ()) . and_then (| s | uuid :: Uuid :: parse_str (s) . ok ()) . unwrap_or_else (uuid :: Uuid :: new_v4)",
        );
    } else if str_eq(t, "Vec<u8>") {
        get.append(
            " . and_then (| v | v . as_array ()) . map (| arr | arr . iter () . filter_map (| v | v . as_u64 () . map (| u | u as u8)) . collect ()) . unwrap_or_default ()",
        );
    } else if str_eq(t, "Vec<String>") {
        get.append(
            " . and_then (| v | v . as_array ()) . map (| arr | arr . iter () . filter_map (| v | v . as_str () . map (| s | s . to_string ())) . collect ()) . unwrap_or_default ()",
        );
    } else if starts_with(t, "Option<") {
        let inner = inner_type_name(t);
        let i = inner.as_str();
        match mark_core(i) {
            Some(c) => {
                get.append(c.as_str());
            },
            None => {
                if str_eq(i, "serde_json::Value") || str_eq(i, "Value") {
                    get.append(" . cloned ()");
                } else if str_eq(i, "uuid::Uuid") || str_eq(i, "Uuid") {
                    get.append(
                        " . and_then (| v | v . as_str ()) . and_then (| s | uuid :: Uuid :: parse_str (s) . ok ())",
                    );
                } else {
                    get.append(" . and_then (| v | serde_json :: from_value (v . clone ()) . ok ())");
                }
            },
        }
    } else {
        get.append(
            " . and_then (| v | serde_json :: from_value (v . clone ()) . ok ()) . unwrap_or_default ()",
        );
    }
    get
}

/// Whether `t` names an integer type.
fn is_integer_name(t: &str) -> (r: bool)
    ensures
        r == spec_is_integer_name(t@),
{
    str_eq(t, "i8") || str_eq(t, "i16") || str_eq(t, "i32") || str_eq(t, "i64") || str_eq(t, "i128")
        || str_eq(t, "isize") || str_eq(t, "u8") || str_eq(t, "u16") || str_eq(t, "u32") || str_eq(
        t,
        "u64",
    ) || str_eq(t, "u128") || str_eq(t, "usize")
}

/// Whether `sub` occurs in `s`.
fn contains_text(s: &str, sub: &str) -> (r: bool)
    ensures
        r == spec_contains_text(s@, sub@),
{
    let n = s.unicode_len();
    let m = sub.unicode_len();
    if m > n {
        proof {
            assert forall|i: int| 0 <= i && i + sub@.len() <= s@.len() implies #[trigger] s@.subrange(
                i,
                i + sub@.len(),
            ) != sub@ by {}
        }
        return false;
    }
    if m == 0 {
        assert(s@.subrange(0, 0 + sub@.len() as int) =~= sub@);
        return true;
    }
    let mut i: usize = 0;
    while i <= n - m
        invariant
            n == s@.len(),
            m == sub@.len(),
            m <= n,
            1 <= m,
            i <= n - m + 1,
            forall|j: int| 0 <= j < i ==> #[trigger] s@.subrange(j, j + m) != sub@,
        decreases n - m + 1 - i,
    {
        if str_eq(s.substring_char(i, i + m), sub) {
            assert(s@.subrange(i as int, i + m) == sub@);
            return true;
        }
        i = i + 1;
    }
    proof {
        assert forall|j: int| 0 <= j && j + sub@.len() <= s@.len() implies #[trigger] s@.subrange(
            j,
            j + sub@.len(),
        ) != sub@ by {
            assert(j < i);
        }
    }
    false
}

/// A named field of the struct, with the position of its configuration.
struct FieldInfo {
    name: String,
    type_text: String,
    config: Option<usize>,
}

impl View for FieldInfo {
    type V = FieldInfoV;

    closed spec fn view(&self) -> FieldInfoV {
        FieldInfoV {
            name: self.name@,
            type_text: self.type_text@,
            config: match self.config {
                Some(k) => Some(k as int),
                None => None,
            },
        }
    }
}

spec fn infos_view(v: Seq<FieldInfo>) -> Seq<FieldInfoV> {
    v.map_values(|f: FieldInfo| f@)
}

/// Generates the conversion methods of a Mark.
pub struct MarkGenerator<'a> {
    input: &'a SynDeriveInput,
    config: &'a MarkConfig,
}

impl<'a> MarkGenerator<'a> {
    /// The derive input the generator reads.
    pub closed spec fn input(&self) -> &'a SynDeriveInput {
        self.input
    }

    /// The configuration the generator reads.
    pub closed spec fn config(&self) -> &'a MarkConfig {
        self.config
    }

    pub fn new(input: &'a SynDeriveInput, config: &'a MarkConfig) -> (r: Self)
        ensures
            r.input() == input,
            r.config() == config,
    {
        MarkGenerator { input, config }
    }

    /// The `mark_definition` method.
    pub fn generate_mark_definition_method(&self) -> (r: MacroResult<String>)
        ensures
            string_result_view(r) == spec_mark_definition_method(self.config()@),
    {
        let header = concat(
            MARK_DEFINITION_DOC,
            " pub fn mark_definition () -> mf_core :: mark :: Mark { ",
        );
        self.mark_builder(header.as_str())
    }

    /// The `to_mark` method.
    pub fn generate_to_mark_method(&self) -> (r: MacroResult<String>)
        ensures
            string_result_view(r) == spec_to_mark_method(self.config()@),
    {
        let header = concat(TO_MARK_DOC, " pub fn to_mark (& self) -> mf_core :: mark :: Mark { ");
        self.mark_builder(header.as_str())
    }

    fn mark_builder(&self, header: &str) -> (r: MacroResult<String>)
        ensures
            string_result_view(r) == spec_mark_builder(header@, self.config()@),
    {
        let mark_type = match &self.config.mark_type {
            Some(t) => t,
            None => {
                return Err(
                    MacroError::validation_error("Mark 配置缺少必需的 mark_type 属性", SpanRef::Input),
                );
            },
        };
        let spec_code = self.generate_mark_spec_code();
        let mut s = String::from_str(header);
        s.append(self.generate_imports());
        s.append(" ");
        s.append(spec_code.as_str());
        s.append(" mf_core :: mark :: Mark :: new (");
        s.append(string_literal(mark_type.as_str()).as_str());
        s.append(" , spec) }");
        Ok(s)
    }

    /// The imports of the building methods.
    pub fn generate_imports(&self) -> (r: &'static str)
        ensures
            r@ == "use std :: collections :: HashMap ; use serde_json :: Value as JsonValue ;"@,
    {
        "use std :: collections :: HashMap ; use serde_json :: Value as JsonValue ;"
    }

    /// The statements building the mark specification.
    fn generate_mark_spec_code(&self) -> (r: String)
        ensures
            r@ == spec_mark_spec_code(self.config()@.attr_fields),
    {
        let mut s = self.generate_attrs_spec_code();
        s.append(
            " let spec = mf_model :: mark_definition :: MarkSpec { attrs , excludes : None , group : None , spanning : None , desc : None , } ;",
        );
        s
    }

    /// The statements building the attribute specification.
    fn generate_attrs_spec_code(&self) -> (r: String)
        ensures
            r@ == (if self.config()@.attr_fields.len() == 0 {
                "let attrs = Some (imbl :: HashMap :: new ()) ;"@
            } else {
                "let mut attrs_map = std :: collections :: HashMap :: new () ; "@
                    + spec_mark_field_specs(
                    self.config()@.attr_fields,
                    self.config()@.attr_fields.len(),
                ) + " let attrs = Some (attrs_map) ;"@
            }),
    {
        let fields = &self.config.attr_fields;
        let ghost fv = field_configs_view(fields@);
        let n = fields.len();
        if n == 0 {
            return String::from_str("let attrs = Some (imbl :: HashMap :: new ()) ;");
        }
        let mut setters = String::new();
        let mut i: usize = 0;
        while i < n
            invariant
                n == fields@.len(),
                fv == field_configs_view(fields@),
                fv == self.config()@.attr_fields,
                i <= n,
                setters@ == spec_mark_field_specs(fv, i as nat),
            decreases n - i,
        {
            assert(fv[i as int] == fields@[i as int]@);
            let x = self.generate_field_spec_code(&fields[i]);
            if i > 0 {
                setters.append(" ");
            }
            setters.append(x.as_str());
            proof {
                if i == 0 {
                    assert(setters@ =~= x@);
                }
            }
            i = i + 1;
        }
        let mut s = String::from_str("let mut attrs_map = std :: collections :: HashMap :: new () ; ");
        s.append(setters.as_str());
        s.append(" let attrs = Some (attrs_map) ;");
        s
    }

    /// The entry of one `#[attr]` field.
    fn generate_field_spec_code(&self, field_config: &FieldConfig) -> (r: String)
        ensures
            r@ == spec_mark_field_spec(field_config@),
    {
        let mut s = String::from_str("attrs_map . insert (");
        s.append(string_literal(field_config.name.as_str()).as_str());
        s.append(" . to_string () , mf_model :: schema :: AttributeSpec { default : Some (");
        s.append(self.generate_default_value_expression(field_config).as_str());
        s.append(") }) ;");
        s
    }

    /// The default JSON value of an `#[attr]` field.
    fn generate_default_value_expression(&self, field_config: &FieldConfig) -> (r: String)
        ensures
            r@ == spec_field_default_value(field_config@),
    {
        match &field_config.default_value {
            Some(d) => self.generate_default_value_from_attr(&d.value_type),
            None => self.generate_type_default_value(field_config.type_text.as_str()),
        }
    }

    /// The JSON value of a default given in `#[attr(default = ..)]`.
    fn generate_default_value_from_attr(&self, d: &DefaultValueType) -> (r: String)
        ensures
            r@ == spec_default_from_attr(d@),
    {
        match d {
            DefaultValueType::String(s) => {
                let mut out = String::from_str("serde_json :: json ! (");
                out.append(string_literal(s.as_str()).as_str());
                out.append(")");
                out
            },
            DefaultValueType::Integer(i) => {
                let mut out = String::from_str("serde_json :: json ! (");
                out.append(i64_literal(*i).as_str());
                out.append(")");
                out
            },
            DefaultValueType::Float(f) => {
                let mut out = String::from_str("serde_json :: json ! (");
                out.append(f.as_str());
                out.append(")");
                out
            },
            DefaultValueType::Boolean(b) => {
                if *b {
                    String::from_str("serde_json :: json ! (true)")
                } else {
                    String::from_str("serde_json :: json ! (false)")
                }
            },
            DefaultValueType::Json(j) => {
                let mut out = String::from_str("serde_json :: from_str (");
                out.append(string_literal(j.as_str()).as_str());
                out.append(") . unwrap_or_else (| _ | serde_json :: json ! (null))");
                out
            },
            DefaultValueType::Null => String::from_str("serde_json :: json ! (null)"),
        }
    }

    /// The JSON value of the default of a type.
    fn generate_type_default_value(&self, t: &str) -> (r: String)
        ensures
            r@ == spec_type_default_value(t@),
    {
        if str_eq(t, "String") {
            String::from_str("serde_json :: json ! (String :: default ())")
        } else if is_integer_name(t) {
            String::from_str("serde_json :: json ! (0)")
        } else if str_eq(t, "f32") || str_eq(t, "f64") {
            String::from_str("serde_json :: json ! (0.0)")
        } else if str_eq(t, "bool") {
            String::from_str("serde_json :: json ! (false)")
        } else if str_eq(t, "serde_json::Value") || str_eq(t, "Value") {
            String::from_str("serde_json :: json ! (null)")
        } else if str_eq(t, "uuid::Uuid") || str_eq(t, "Uuid") {
            String::from_str("serde_json :: json ! (uuid :: Uuid :: new_v4 () . to_string ())")
        } else if str_eq(t, "Vec<u8>") {
            String::from_str("serde_json :: json ! (Vec :: < u8 > :: new ())")
        } else if str_eq(t, "Vec<String>") {
            String::from_str("serde_json :: json ! (Vec :: < String > :: new ())")
        } else if starts_with(t, "Option<") {
            String::from_str("serde_json :: json ! (null)")
        } else if parses_as_type(t) {
            let mut s = String::from_str("serde_json :: to_value (< ");
            s.append(t);
            s.append(" as Default > :: default ()) . unwrap_or_else (| _ | serde_json :: json ! (null))");
            s
        } else {
            String::from_str("serde_json :: json ! (null)")
        }
    }

    /// Every named field, with its configuration's position.
    fn extract_all_fields(&self) -> (r: MacroResult<Vec<FieldInfo>>)
        ensures
            match r {
                Ok(v) => spec_extract_all_fields(self.input()@, self.config()@.attr_fields) == Ok::<
                    Seq<FieldInfoV>,
                    MacroErrorV,
                >(infos_view(v@)),
                Err(e) => spec_extract_all_fields(self.input()@, self.config()@.attr_fields) == Err::<
                    Seq<FieldInfoV>,
                    MacroErrorV,
                >(e@),
            },
    {
        let fields = match &self.input.data {
            SynData::Struct(SynFields::Named(fs)) => fs,
            SynData::Struct(SynFields::Unit) => {
                let v: Vec<FieldInfo> = Vec::new();
                assert(infos_view(v@) =~= Seq::empty());
                return Ok(v);
            },
            SynData::Struct(SynFields::Unnamed) => {
                return Err(MacroError::validation_error("不支持元组结构体", SpanRef::Input));
            },
            _ => {
                return Err(MacroError::validation_error("只支持结构体类型", SpanRef::Input));
            },
        };
        let ghost fv = fields_view(fields@);
        let ghost cv = self.config()@.attr_fields;
        let n = fields.len();
        let mut out: Vec<FieldInfo> = Vec::new();
        let mut i: usize = 0;
        assert(infos_view(out@) =~= Seq::empty());
        while i < n
            invariant
                n == fields@.len(),
                fv == fields_view(fields@),
                cv == self.config()@.attr_fields,
                i <= n,
                infos_view(out@) == spec_field_infos(fv, cv, i as nat),
            decreases n - i,
        {
            let f = &fields[i];
            assert(fv[i as int] == f@);
            match &f.ident {
                None => {},
                Some(name) => {
                    let config = self.config_index(name.as_str());
                    let info = FieldInfo {
                        name: name.clone(),
                        type_text: self.extract_type_name(&f.ty),
                        config,
                    };
                    let ghost old_out = out@;
                    out.push(info);
                    assert(infos_view(out@) =~= infos_view(old_out).push(info@));
                },
            }
            i = i + 1;
        }
        Ok(out)
    }

    /// The position of the first configuration with this name.
    fn config_index(&self, name: &str) -> (r: Option<usize>)
        ensures
            match r {
                Some(k) => spec_config_index(self.config()@.attr_fields, name@, 0) == Some(k as int),
                None => spec_config_index(self.config()@.attr_fields, name@, 0) is None,
            },
    {
        let fields = &self.config.attr_fields;
        let ghost cv = field_configs_view(fields@);
        let n = fields.len();
        let mut k: usize = 0;
        while k < n
            invariant
                n == fields@.len(),
                cv == field_configs_view(fields@),
                cv == self.config()@.attr_fields,
                k <= n,
                spec_config_index(cv, name@, 0) == spec_config_index(cv, name@, k as int),
            decreases n - k,
        {
            assert(cv[k as int] == fields@[k as int]@);
            if str_eq(fields[k].name.as_str(), name) {
                return Some(k);
            }
            k = k + 1;
        }
        None
    }

    /// A type's name as this generator writes it.
    pub fn extract_type_name(&self, ty: &SynType) -> (r: String)
        ensures
            r@ == spec_mark_type_name(ty@),
    {
        mark_type_name(ty)
    }

    /// The `from` method.
    pub fn generate_from_method(&self) -> (r: MacroResult<String>)
        ensures
            string_result_view(r) == spec_mark_from_method(self.input()@, self.config()@),
    {
        let mark_type = match &self.config.mark_type {
            Some(t) => t,
            None => {
                return Err(
                    MacroError::validation_error("Mark 配置缺少必需的 mark_type 属性", SpanRef::Input),
                );
            },
        };
        let inits = match self.generate_field_initializers() {
            Ok(x) => x,
            Err(e) => return Err(e),
        };
        let l = string_literal(mark_type.as_str());
        let mut s = String::from_str(MARK_FROM_DOC);
        s.append(
            " pub fn from (mark : & mf_model :: mark :: Mark) -> Result < Self , String > { use serde_json :: Value as JsonValue ; if mark . r#type != ",
        );
        s.append(l.as_str());
        s.append(" { return Err (format ! (\"标记类型不匹配: 期望 '{}', 实际 '{}'\" , ");
        s.append(l.as_str());
        s.append(" , mark . r#type)) ; } Ok (Self ");
        s.append(braced_text(inits.as_str()).as_str());
        s.append(") }");
        Ok(s)
    }

    /// The initialisers of every named field in `from`.
    fn generate_field_initializers(&self) -> (r: MacroResult<String>)
        ensures
            string_result_view(r) == match spec_extract_all_fields(
                self.input()@,
                self.config()@.attr_fields,
            ) {
                Err(e) => Err(e),
                Ok(infos) => spec_mark_field_inits(infos, self.config()@.attr_fields, infos.len()),
            },
    {
        let infos = match self.extract_all_fields() {
            Ok(v) => v,
            Err(e) => return Err(e),
        };
        let ghost iv = infos_view(infos@);
        let ghost cv = self.config()@.attr_fields;
        proof {
            lemma_all_fields_configs(self.input()@, cv);
        }
        let n = infos.len();
        let mut inits = String::new();
        let mut i: usize = 0;
        while i < n
            invariant
                n == infos@.len(),
                iv == infos_view(infos@),
                cv == self.config()@.attr_fields,
                spec_extract_all_fields(self.input()@, cv) == Ok::<Seq<FieldInfoV>, MacroErrorV>(iv),
                i <= n,
                spec_mark_field_inits(iv, cv, i as nat) == Ok::<Seq<char>, MacroErrorV>(inits@),
                forall|j: int|
                    0 <= j < iv.len() ==> (#[trigger] iv[j]).config is Some ==> 0 <= iv[j].config->Some_0
                        < cv.len(),
            decreases n - i,
        {
            assert(iv[i as int] == infos@[i as int]@);
            match self.generate_field_initialization_from_info(&infos[i]) {
                Ok(x) => {
                    if i > 0 {
                        inits.append(" , ");
                    }
                    inits.append(x.as_str());
                    proof {
                        if i == 0 {
                            assert(inits@ =~= x@);
                        }
                    }
                },
                Err(e) => {
                    proof {
                        lemma_mark_field_inits_err(iv, cv, (i + 1) as nat, n as nat);
                    }
                    return Err(e);
                },
            }
            i = i + 1;
        }
        Ok(inits)
    }

    /// The initialiser of one field in `from`.
    fn generate_field_initialization_from_info(&self, info: &FieldInfo) -> (r: MacroResult<String>)
        requires
            info@.config is Some ==> 0 <= info@.config->Some_0 < self.config()@.attr_fields.len(),
        ensures
            string_result_view(r) == spec_mark_field_init(info@, self.config()@.attr_fields),
    {
        let name = info.name.as_str();
        if !parses_as_ident(name) {
            return Err(MacroError::parse_error(concat("无效的字段名称: ", name).as_str(), SpanRef::Input));
        }
        let code = match info.config {
            Some(k) => {
                assert(field_configs_view(self.config.attr_fields@)[k as int]
                    == self.config.attr_fields@[k as int]@);
                self.generate_field_extraction_code(&self.config.attr_fields[k])
            },
            None => self.generate_non_attr_field_default(info.type_text.as_str()),
        };
        let mut s = String::from_str(name);
        s.append(" : ");
        s.append(code.as_str());
        Ok(s)
    }

    /// The code reading one `#[attr]` field back from a mark.
    fn generate_field_extraction_code(&self, field_config: &FieldConfig) -> (r: String)
        ensures
            r@ == spec_mark_extraction(lit(field_config@.name), field_config@.type_text),
    {
        let l = string_literal(field_config.name.as_str());
        mark_extraction(l.as_str(), field_config.type_text.as_str())
    }

    /// The text between the first `<` and the last `>` of a type name, or
    /// `String`.
    pub fn extract_option_inner_type(&self, type_text: &str) -> (r: String)
        ensures
            r@ == spec_inner_type_name(type_text@),
    {
        inner_type_name(type_text)
    }

    /// The value of a field without `#[attr]` in `from`.
    fn generate_non_attr_field_default(&self, t: &str) -> (r: String)
        ensures
            r@ == spec_non_attr_default(t@),
    {
        if str_eq(t, "String") {
            String::from_str("String :: default ()")
        } else if is_integer_name(t) {
            String::from_str("0")
        } else if str_eq(t, "f32") || str_eq(t, "f64") {
            String::from_str("0.0")
        } else if str_eq(t, "bool") {
            String::from_str("false")
        } else if str_eq(t, "uuid::Uuid") || str_eq(t, "Uuid") {
            String::from_str("uuid :: Uuid :: new_v4 ()")
        } else if str_eq(t, "Vec<u8>") || str_eq(t, "Vec<String>") {
            String::from_str("Vec :: new ()")
        } else if str_eq(t, "()") {
            String::from_str("()")
        } else if starts_with(t, "Option<") {
            String::from_str("None")
        } else if contains_text(t, "PhantomData") {
            String::from_str("std :: marker :: PhantomData")
        } else if str_eq(t, "Unknown") {
            String::from_str("Default :: default ()")
        } else if parses_as_type(t) {
            let mut s = String::from_str("< ");
            s.append(t);
            s.append(" as Default > :: default ()");
            s
        } else {
            String::from_str("Default :: default ()")
        }
    }

    /// The `default_instance` method.
    pub fn generate_default_instance_method(&self) -> (r: MacroResult<String>)
        ensures
            string_result_view(r) == spec_default_instance_method(self.input()@, self.config()@),
    {
        let infos = match self.extract_all_fields() {
            Ok(v) => v,
            Err(e) => return Err(e),
        };
        let ghost iv = infos_view(infos@);
        let ghost cv = self.config()@.attr_fields;
        proof {
            lemma_all_fields_configs(self.input()@, cv);
        }
        let n = infos.len();
        let mut inits = String::new();
        let mut i: usize = 0;
        while i < n
            invariant
                n == infos@.len(),
                iv == infos_view(infos@),
                cv == self.config()@.attr_fields,
                spec_extract_all_fields(self.input()@, cv) == Ok::<Seq<FieldInfoV>, MacroErrorV>(iv),
                i <= n,
                spec_instance_field_inits(iv, cv, i as nat) == Ok::<Seq<char>, MacroErrorV>(inits@),
                forall|j: int|
                    0 <= j < iv.len() ==> (#[trigger] iv[j]).config is Some ==> 0 <= iv[j].config->Some_0
                        < cv.len(),
            decreases n - i,
        {
            assert(iv[i as int] == infos@[i as int]@);
            match self.instance_field_init(&infos[i]) {
                Ok(x) => {
                    if i > 0 {
                        inits.append(" , ");
                    }
                    inits.append(x.as_str());
                    proof {
                        if i == 0 {
                            assert(inits@ =~= x@);
                        }
                    }
                },
                Err(e) => {
                    proof {
                        lemma_instance_field_inits_err(iv, cv, (i + 1) as nat, n as nat);
                    }
                    return Err(e);
                },
            }
            i = i + 1;
        }
        let mut s = String::from_str(DEFAULT_INSTANCE_DOC);
        s.append(" fn default_instance () -> Self { Self ");
        s.append(braced_text(inits.as_str()).as_str());
        s.append(" }");
        Ok(s)
    }

    /// The initialiser of one field in `default_instance`.
    fn instance_field_init(&self, info: &FieldInfo) -> (r: MacroResult<String>)
        requires
            info@.config is Some ==> 0 <= info@.config->Some_0 < self.config()@.attr_fields.len(),
        ensures
            string_result_view(r) == spec_instance_field_init(info@, self.config()@.attr_fields),
    {
        let name = info.name.as_str();
        if !parses_as_ident(name) {
            return Err(MacroError::parse_error(concat("无效的字段名称: ", name).as_str(), SpanRef::Input));
        }
        let value = match info.config {
            Some(k) => {
                assert(field_configs_view(self.config.attr_fields@)[k as int]
                    == self.config.attr_fields@[k as int]@);
                let fc = &self.config.attr_fields[k];
                if fc.default_value.is_some() {
                    Ok(self.generate_default_value_for_instance(fc))
                } else {
                    self.generate_type_default_for_instance(info.type_text.as_str())
                }
            },
            None => self.generate_type_default_for_instance(info.type_text.as_str()),
        };
        match value {
            Err(e) => Err(e),
            Ok(v) => {
                let mut s = String::from_str(name);
                s.append(" : ");
                s.append(v.as_str());
                Ok(s)
            },
        }
    }

    /// The value an `#[attr]` field with a default takes in
    /// `default_instance`.
    fn generate_default_value_for_instance(&self, field_config: &FieldConfig) -> (r: String)
        requires
            field_config.default_value is Some,
        ensures
            r@ == spec_instance_from_attr(
                field_config@.default_value->Some_0.value_type,
                field_config@.type_text,
            ),
    {
        match &field_config.default_value {
            Some(d) => self.generate_default_value_from_attr_for_instance(
                &d.value_type,
                field_config.type_text.as_str(),
            ),
            None => String::new(),
        }
    }

    /// A default given in `#[attr(default = ..)]`, as a value of `target`.
    fn generate_default_value_from_attr_for_instance(
        &self,
        d: &DefaultValueType,
        target: &str,
    ) -> (r: String)
        ensures
            r@ == spec_instance_from_attr(d@, target@),
    {
        match d {
            DefaultValueType::String(s) => {
                let mut out = string_literal(s.as_str());
                out.append(" . to_string ()");
                out
            },
            DefaultValueType::Integer(i) => {
                let mut out = i64_literal(*i);
                if str_eq(target, "i64") {
                } else if is_integer_name(target) || str_eq(target, "f32") || str_eq(target, "f64") {
                    out.append(" as ");
                    out.append(target);
                } else {
                    out.append(" as i32");
                }
                out
            },
            DefaultValueType::Float(f) => {
                let mut out = f.clone();
                if str_eq(target, "f32") {
                    out.append(" as f32");
                }
                out
            },
            DefaultValueType::Boolean(b) => {
                if *b {
                    String::from_str("true")
                } else {
                    String::from_str("false")
                }
            },
            DefaultValueType::Json(_) => String::from_str("String :: default ()"),
            DefaultValueType::Null => String::from_str("String :: default ()"),
        }
    }

    /// The default value of a type in `default_instance`.
    fn generate_type_default_for_instance(&self, t: &str) -> (r: MacroResult<String>)
        ensures
            string_result_view(r) == spec_instance_type_default(t@),
    {
        if str_eq(t, "String") {
            Ok(String::from_str("String :: default ()"))
        } else if is_integer_name(t) {
            Ok(String::from_str("0"))
        } else if str_eq(t, "f32") || str_eq(t, "f64") {
            Ok(String::from_str("0.0"))
        } else if str_eq(t, "bool") {
            Ok(String::from_str("false"))
        } else if str_eq(t, "serde_json::Value") || str_eq(t, "Value") {
            Ok(String::from_str("serde_json :: Value :: Null"))
        } else if str_eq(t, "uuid::Uuid") || str_eq(t, "Uuid") {
            Ok(String::from_str("uuid :: Uuid :: new_v4 ()"))
        } else if str_eq(t, "Vec<u8>") || str_eq(t, "Vec<String>") {
            Ok(String::from_str("Vec :: new ()"))
        } else if str_eq(t, "()") {
            Ok(String::from_str("()"))
        } else if starts_with(t, "Option<") {
            Ok(String::from_str("None"))
        } else if str_eq(t, "Unknown") {
            Ok(String::from_str("Default :: default ()"))
        } else if parses_as_type(t) {
            let mut s = String::from_str("< ");
            s.append(t);
            s.append(" as Default > :: default ()");
            Ok(s)
        } else {
            Err(MacroError::parse_error(concat("无效的类型名称: ", t).as_str(), SpanRef::Input))
        }
    }
}

impl<'a> CodeGenerator for MarkGenerator<'a> {
    closed spec fn spec_generate(&self) -> Result<Seq<char>, MacroErrorV> {
        spec_mark_generate(self.input@, self.config@)
    }

    open spec fn spec_name(&self) -> Seq<char> {
        "MarkGenerator"@
    }

    fn generate(&self) -> (r: MacroResult<String>) {
        let d = match self.generate_mark_definition_method() {
            Ok(x) => x,
            Err(e) => return Err(e),
        };
        let t = match self.generate_to_mark_method() {
            Ok(x) => x,
            Err(e) => return Err(e),
        };
        let f = match self.generate_from_method() {
            Ok(x) => x,
            Err(e) => return Err(e),
        };
        let i = match self.generate_default_instance_method() {
            Ok(x) => x,
            Err(e) => return Err(e),
        };
        let name = self.input.ident.as_str();
        let mut s = String::from_str("impl ");
        s.append(name);
        s.append(" { ");
        s.append(d.as_str());
        s.append(" ");
        s.append(t.as_str());
        s.append(" ");
        s.append(f.as_str());
        s.append(" ");
        s.append(i.as_str());
        s.append(" } impl From < ");
        s.append(name);
        s.append(" > for mf_core :: mark :: Mark { ");
        s.append(INTO_MARK_DOC);
        s.append(" fn from (_value : ");
        s.append(name);
        s.append(") -> Self { ");
        s.append(name);
        s.append(" :: mark_definition () } } impl From < mf_model :: mark :: Mark > for ");
        s.append(name);
        s.append(" { ");
        s.append(FROM_MARK_DOC);
        s.append(" fn from (mark : mf_model :: mark :: Mark) -> Self { ");
        s.append(name);
        s.append(" :: from (& mark) . unwrap_or_else (| _ | { Self :: default_instance () }) } }");
        Ok(s)
    }

    fn name(&self) -> (r: &'static str) {
        "MarkGenerator"
    }
}

impl<'a> MarkGenerator<'a> {
    /// What `generate` produces: the code of `spec_mark_generate` for the
    /// generator's input and configuration.
    pub proof fn lemma_generate(&self)
        ensures
            self.spec_generate() == spec_mark_generate(self.input()@, self.config()@),
    {
    }
}

proof fn lemma_config_index_range(fcs: Seq<FieldConfigV>, name: Seq<char>, k: int)
    requires
        0 <= k,
    ensures
        spec_config_index(fcs, name, k) is Some ==> k <= spec_config_index(fcs, name, k)->Some_0
            < fcs.len(),
    decreases fcs.len() - k,
{
    if k < fcs.len() && fcs[k].name != name {
        lemma_config_index_range(fcs, name, k + 1);
    }
}

proof fn lemma_field_infos_configs(fields: Seq<SynFieldV>, fcs: Seq<FieldConfigV>, n: nat)
    ensures
        forall|j: int|
            0 <= j < spec_field_infos(fields, fcs, n).len() ==> (#[trigger] spec_field_infos(
                fields,
                fcs,
                n,
            )[j]).config is Some ==> 0 <= spec_field_infos(fields, fcs, n)[j].config->Some_0
                < fcs.len(),
    decreases n,
{
    if n > 0 {
        lemma_field_infos_configs(fields, fcs, (n - 1) as nat);
        if let Some(name) = fields[n - 1].ident {
            lemma_config_index_range(fcs, name, 0);
        }
    }
}

proof fn lemma_all_fields_configs(input: SynDeriveInputV, fcs: Seq<FieldConfigV>)
    ensures
        spec_extract_all_fields(input, fcs) is Ok ==> forall|j: int|
            0 <= j < spec_extract_all_fields(input, fcs)->Ok_0.len() ==> (
            #[trigger] spec_extract_all_fields(input, fcs)->Ok_0[j]).config is Some ==> 0
                <= spec_extract_all_fields(input, fcs)->Ok_0[j].config->Some_0 < fcs.len(),
{
    if let SynDataV::Struct(SynFieldsV::Named(fs)) = input.data {
        lemma_field_infos_configs(fs, fcs, fs.len());
    }
}

proof fn lemma_mark_field_inits_err(
    infos: Seq<FieldInfoV>,
    fcs: Seq<FieldConfigV>,
    i: nat,
    n: nat,
)
    requires
        i <= n,
        spec_mark_field_inits(infos, fcs, i) is Err,
    ensures
        spec_mark_field_inits(infos, fcs, n) == spec_mark_field_inits(infos, fcs, i),
    decreases n,
{
    if n > i {
        lemma_mark_field_inits_err(infos, fcs, i, (n - 1) as nat);
    }
}

proof fn lemma_instance_field_inits_err(
    infos: Seq<FieldInfoV>,
    fcs: Seq<FieldConfigV>,
    i: nat,
    n: nat,
)
    requires
        i <= n,
        spec_instance_field_inits(infos, fcs, i) is Err,
    ensures
        spec_instance_field_inits(infos, fcs, n) == spec_instance_field_inits(infos, fcs, i),
    decreases n,
{
    if n > i {
        lemma_instance_field_inits_err(infos, fcs, i, (n - 1) as nat);
    }
}

} // verus!
