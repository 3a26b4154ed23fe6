//! The specialised converters: strings, numbers, booleans, and a converter
//! reserved for special types that handles none yet.

use vstd::prelude::*;
use vstd::string::*;
use crate::common::error::{MacroErrorV, MacroResult};
use crate::common::utils::{
    extract_option_inner_type, extract_type_name, is_option_type, remove_spaces,
    spec_is_option_type, spec_option_inner, spec_remove_spaces, spec_type_name,
};
use crate::converter::type_converter::{
    TypeConverter, convert_when, spec_convert_when, spec_unsupported_field, unsupported_field,
};
use crate::parser::field_analyzer::{
    spec_analyze_field_type, spec_base_type_name, spec_is_numeric_name,
};
use crate::syntax::{SynField, SynFieldV, SynType, SynTypeV};
use crate::text::str_eq;

verus! {

/// The short name of a type with spaces removed, as the specialised
/// converters compare it (so that `& str` reads as `&str`).
pub open spec fn spec_compact_name(t: SynTypeV) -> Seq<char> {
    spec_remove_spaces(spec_type_name(t))
}

/// A type that a converter recognising basic types by `basic` handles: a
/// basic type, or `Option<T>` with `T` basic.
pub open spec fn spec_handles(t: SynTypeV, basic: spec_fn(SynTypeV) -> bool) -> bool {
    if spec_is_option_type(t) {
        match spec_option_inner(t) {
            Some(inner) => basic(inner),
            None => false,
        }
    } else {
        basic(t)
    }
}

pub open spec fn spec_basic_string(t: SynTypeV) -> bool {
    let n = spec_compact_name(t);
    n == "String"@ || n == "str"@ || n == "&str"@
}

pub open spec fn spec_basic_numeric(t: SynTypeV) -> bool {
    spec_is_numeric_name(spec_compact_name(t))
}

pub open spec fn spec_basic_boolean(t: SynTypeV) -> bool {
    spec_compact_name(t) == "bool"@
}

fn compact_name(t: &SynType) -> (r: String)
    ensures
        r@ == spec_compact_name(t@),
{
    let n = extract_type_name(t);
    remove_spaces(n.as_str())
}

/// The converter for `String`, `str` and `&str`, and `Option`s of them.
#[derive(PartialEq, Eq, Structural, Clone, Copy, Debug)]
pub struct StringConverter;

/// The converter for the integer and float types, and `Option`s of them.
#[derive(PartialEq, Eq, Structural, Clone, Copy, Debug)]
pub struct NumericConverter;

/// The converter for `bool` and `Option<bool>`.
#[derive(PartialEq, Eq, Structural, Clone, Copy, Debug)]
pub struct BooleanConverter;

/// The converter reserved for special types; it handles no type yet.
#[derive(PartialEq, Eq, Structural, Clone, Copy, Debug)]
pub struct SpecialTypeConverter;

impl StringConverter {
    pub fn new() -> (r: Self)
        ensures
            r == StringConverter,
    {
        StringConverter
    }

    fn is_basic_string_type(&self, field_type: &SynType) -> (r: bool)
        ensures
            r == spec_basic_string(field_type@),
    {
        let n = compact_name(field_type);
        str_eq(n.as_str(), "String") || str_eq(n.as_str(), "str") || str_eq(n.as_str(), "&str")
    }

    fn is_string_type(&self, field_type: &SynType) -> (r: bool)
        ensures
            r == spec_handles(field_type@, |t: SynTypeV| spec_basic_string(t)),
    {
        if is_option_type(field_type) {
            match extract_option_inner_type(field_type) {
                Some(inner) => self.is_basic_string_type(inner),
                None => false,
            }
        } else {
            self.is_basic_string_type(field_type)
        }
    }
}

impl NumericConverter {
    pub fn new() -> (r: Self)
        ensures
            r == NumericConverter,
    {
        NumericConverter
    }

    fn is_basic_numeric_type(&self, field_type: &SynType) -> (r: bool)
        ensures
            r == spec_basic_numeric(field_type@),
    {
        let n = compact_name(field_type);
        let b = n.as_str();
        str_eq(b, "i8") || str_eq(b, "i16") || str_eq(b, "i32") || str_eq(b, "i64") || str_eq(
            b,
            "i128",
        ) || str_eq(b, "isize") || str_eq(b, "u8") || str_eq(b, "u16") || str_eq(b, "u32")
            || str_eq(b, "u64") || str_eq(b, "u128") || str_eq(b, "usize") || str_eq(b, "f32")
            || str_eq(b, "f64")
    }

    fn is_numeric_type(&self, field_type: &SynType) -> (r: bool)
        ensures
            r == spec_handles(field_type@, |t: SynTypeV| spec_basic_numeric(t)),
    {
        if is_option_type(field_type) {
            match extract_option_inner_type(field_type) {
                Some(inner) => self.is_basic_numeric_type(inner),
                None => false,
            }
        } else {
            self.is_basic_numeric_type(field_type)
        }
    }
}

impl BooleanConverter {
    pub fn new() -> (r: Self)
        ensures
            r == BooleanConverter,
    {
        BooleanConverter
    }

    fn is_basic_boolean_type(&self, field_type: &SynType) -> (r: bool)
        ensures
            r == spec_basic_boolean(field_type@),
    {
        let n = compact_name(field_type);
        str_eq(n.as_str(), "bool")
    }

    fn is_boolean_type(&self, field_type: &SynType) -> (r: bool)
        ensures
            r == spec_handles(field_type@, |t: SynTypeV| spec_basic_boolean(t)),
    {
        if is_option_type(field_type) {
            match extract_option_inner_type(field_type) {
                Some(inner) => self.is_basic_boolean_type(inner),
                None => false,
            }
        } else {
            self.is_basic_boolean_type(field_type)
        }
    }
}

impl SpecialTypeConverter {
    pub fn new() -> (r: Self)
        ensures
            r == SpecialTypeConverter,
    {
        SpecialTypeConverter
    }

    fn is_special_type(&self, field_type: &SynType) -> (r: bool)
        ensures
            !r,
    {
        false
    }
}

impl Default for StringConverter {
    fn default() -> (r: Self)
        ensures
            r == StringConverter,
    {
        StringConverter
    }
}

impl Default for NumericConverter {
    fn default() -> (r: Self)
        ensures
            r == NumericConverter,
    {
        NumericConverter
    }
}

impl Default for BooleanConverter {
    fn default() -> (r: Self)
        ensures
            r == BooleanConverter,
    {
        BooleanConverter
    }
}

impl Default for SpecialTypeConverter {
    fn default() -> (r: Self)
        ensures
            r == SpecialTypeConverter,
    {
        SpecialTypeConverter
    }
}

impl TypeConverter for StringConverter {
    open spec fn spec_supports(&self, t: SynTypeV) -> bool {
        spec_handles(t, |t: SynTypeV| spec_basic_string(t))
    }

    open spec fn spec_priority(&self) -> i32 {
        90
    }

    open spec fn spec_name(&self) -> Seq<char> {
        "StringConverter"@
    }

    open spec fn spec_convert(&self, f: SynFieldV, index: usize) -> Result<Seq<char>, MacroErrorV> {
        spec_convert_when(self.spec_supports(f.ty), f, index)
    }

    fn convert_field_to_json_value(&self, field: &SynField, index: usize) -> (r: MacroResult<
        String,
    >) {
        let supported = self.supports_type(&field.ty);
        convert_when(supported, field, index)
    }

    fn supports_type(&self, field_type: &SynType) -> (r: bool) {
        self.is_string_type(field_type)
    }

    fn priority(&self) -> (r: i32) {
        90
    }

    fn name(&self) -> (r: &'static str) {
        "StringConverter"
    }
}

impl TypeConverter for NumericConverter {
    open spec fn spec_supports(&self, t: SynTypeV) -> bool {
        spec_handles(t, |t: SynTypeV| spec_basic_numeric(t))
    }

    open spec fn spec_priority(&self) -> i32 {
        95
    }

    open spec fn spec_name(&self) -> Seq<char> {
        "NumericConverter"@
    }

    open spec fn spec_convert(&self, f: SynFieldV, index: usize) -> Result<Seq<char>, MacroErrorV> {
        spec_convert_when(self.spec_supports(f.ty), f, index)
    }

    fn convert_field_to_json_value(&self, field: &SynField, index: usize) -> (r: MacroResult<
        String,
    >) {
        let supported = self.supports_type(&field.ty);
        convert_when(supported, field, index)
    }

    fn supports_type(&self, field_type: &SynType) -> (r: bool) {
        self.is_numeric_type(field_type)
    }

    fn priority(&self) -> (r: i32) {
        95
    }

    fn name(&self) -> (r: &'static str) {
        "NumericConverter"
    }
}

impl TypeConverter for BooleanConverter {
    open spec fn spec_supports(&self, t: SynTypeV) -> bool {
        spec_handles(t, |t: SynTypeV| spec_basic_boolean(t))
    }

    open spec fn spec_priority(&self) -> i32 {
        85
    }

    open spec fn spec_name(&self) -> Seq<char> {
        "BooleanConverter"@
    }

    open spec fn spec_convert(&self, f: SynFieldV, index: usize) -> Result<Seq<char>, MacroErrorV> {
        spec_convert_when(self.spec_supports(f.ty), f, index)
    }

    fn convert_field_to_json_value(&self, field: &SynField, index: usize) -> (r: MacroResult<
        String,
    >) {
        let supported = self.supports_type(&field.ty);
        convert_when(supported, field, index)
    }

    fn supports_type(&self, field_type: &SynType) -> (r: bool) {
        self.is_boolean_type(field_type)
    }

    fn priority(&self) -> (r: i32) {
        85
    }

    fn name(&self) -> (r: &'static str) {
        "BooleanConverter"
    }
}

impl TypeConverter for SpecialTypeConverter {
    open spec fn spec_supports(&self, t: SynTypeV) -> bool {
        false
    }

    open spec fn spec_priority(&self) -> i32 {
        50
    }

    open spec fn spec_name(&self) -> Seq<char> {
        "SpecialTypeConverter"@
    }

    open spec fn spec_convert(&self, f: SynFieldV, index: usize) -> Result<Seq<char>, MacroErrorV> {
        Err(spec_unsupported_field(f, index))
    }

    fn convert_field_to_json_value(&self, field: &SynField, index: usize) -> (r: MacroResult<
        String,
    >) {
        Err(unsupported_field(field, index))
    }

    fn supports_type(&self, field_type: &SynType) -> (r: bool) {
        self.is_special_type(field_type)
    }

    fn priority(&self) -> (r: i32) {
        50
    }

    fn name(&self) -> (r: &'static str) {
        "SpecialTypeConverter"
    }
}

/// A converter that can be registered: one the library provides, or a
/// user's own converter of type `U`.
#[derive(Clone, Debug)]
pub enum Converter<U = NoCustomConverter> {
    Builtin(crate::converter::type_converter::BuiltinTypeConverter),
    Text(StringConverter),
    Numeric(NumericConverter),
    Boolean(BooleanConverter),
    Special(SpecialTypeConverter),
    Custom(U),
}

/// The custom converter of registries that hold only the library's
/// converters: it handles no type.
#[derive(Clone, Copy, Debug)]
pub struct NoCustomConverter;

impl TypeConverter for NoCustomConverter {
    open spec fn spec_supports(&self, t: SynTypeV) -> bool {
        false
    }

    open spec fn spec_priority(&self) -> i32 {
        0
    }

    open spec fn spec_name(&self) -> Seq<char> {
        "NoCustomConverter"@
    }

    open spec fn spec_convert(&self, f: SynFieldV, index: usize) -> Result<Seq<char>, MacroErrorV> {
        Err(spec_unsupported_field(f, index))
    }

    fn convert_field_to_json_value(&self, field: &SynField, index: usize) -> (r: MacroResult<
        String,
    >) {
        Err(unsupported_field(field, index))
    }

    fn supports_type(&self, field_type: &SynType) -> (r: bool) {
        false
    }

    fn priority(&self) -> (r: i32) {
        0
    }

    fn name(&self) -> (r: &'static str) {
        "NoCustomConverter"
    }
}

impl<U: TypeConverter> TypeConverter for Converter<U> {
    open spec fn spec_supports(&self, t: SynTypeV) -> bool {
        match self {
            Converter::Builtin(c) => c.spec_supports(t),
            Converter::Text(c) => c.spec_supports(t),
            Converter::Numeric(c) => c.spec_supports(t),
            Converter::Boolean(c) => c.spec_supports(t),
            Converter::Special(c) => c.spec_supports(t),
            Converter::Custom(c) => c.spec_supports(t),
        }
    }

    open spec fn spec_priority(&self) -> i32 {
        match self {
            Converter::Builtin(c) => c.spec_priority(),
            Converter::Text(c) => c.spec_priority(),
            Converter::Numeric(c) => c.spec_priority(),
            Converter::Boolean(c) => c.spec_priority(),
            Converter::Special(c) => c.spec_priority(),
            Converter::Custom(c) => c.spec_priority(),
        }
    }

    open spec fn spec_name(&self) -> Seq<char> {
        match self {
            Converter::Builtin(c) => c.spec_name(),
            Converter::Text(c) => c.spec_name(),
            Converter::Numeric(c) => c.spec_name(),
            Converter::Boolean(c) => c.spec_name(),
            Converter::Special(c) => c.spec_name(),
            Converter::Custom(c) => c.spec_name(),
        }
    }

    open spec fn spec_convert(&self, f: SynFieldV, index: usize) -> Result<Seq<char>, MacroErrorV> {
        match self {
            Converter::Builtin(c) => c.spec_convert(f, index),
            Converter::Text(c) => c.spec_convert(f, index),
            Converter::Numeric(c) => c.spec_convert(f, index),
            Converter::Boolean(c) => c.spec_convert(f, index),
            Converter::Special(c) => c.spec_convert(f, index),
            Converter::Custom(c) => c.spec_convert(f, index),
        }
    }

    fn convert_field_to_json_value(&self, field: &SynField, index: usize) -> (r: MacroResult<
        String,
    >) {
        match self {
            Converter::Builtin(c) => c.convert_field_to_json_value(field, index),
            Converter::Text(c) => c.convert_field_to_json_value(field, index),
            Converter::Numeric(c) => c.convert_field_to_json_value(field, index),
            Converter::Boolean(c) => c.convert_field_to_json_value(field, index),
            Converter::Special(c) => c.convert_field_to_json_value(field, index),
            Converter::Custom(c) => c.convert_field_to_json_value(field, index),
        }
    }

    fn supports_type(&self, field_type: &SynType) -> (r: bool) {
        match self {
            Converter::Builtin(c) => c.supports_type(field_type),
            Converter::Text(c) => c.supports_type(field_type),
            Converter::Numeric(c) => c.supports_type(field_type),
            Converter::Boolean(c) => c.supports_type(field_type),
            Converter::Special(c) => c.supports_type(field_type),
            Converter::Custom(c) => c.supports_type(field_type),
        }
    }

    fn priority(&self) -> (r: i32) {
        match self {
            Converter::Builtin(c) => c.priority(),
            Converter::Text(c) => c.priority(),
            Converter::Numeric(c) => c.priority(),
            Converter::Boolean(c) => c.priority(),
            Converter::Special(c) => c.priority(),
            Converter::Custom(c) => c.priority(),
        }
    }

    fn name(&self) -> (r: &'static str) {
        match self {
            Converter::Builtin(c) => c.name(),
            Converter::Text(c) => c.name(),
            Converter::Numeric(c) => c.name(),
            Converter::Boolean(c) => c.name(),
            Converter::Special(c) => c.name(),
            Converter::Custom(c) => c.name(),
        }
    }
}

/// The specialised converters, by priority from the highest.
pub open spec fn spec_builtin_converters<U>() -> Seq<Converter<U>> {
    seq![
        Converter::Numeric(NumericConverter),
        Converter::Text(StringConverter),
        Converter::Boolean(BooleanConverter),
        Converter::Special(SpecialTypeConverter),
    ]
}

/// The specialised converters, ordered by priority from the highest.
pub fn get_all_builtin_converters() -> (r: Vec<Converter>)
    ensures
        r@ == spec_builtin_converters::<NoCustomConverter>(),
        forall|i: int, j: int|
            0 <= i < j < r@.len() ==> r@[i].spec_priority() >= r@[j].spec_priority(),
{
    let r = vec![
        Converter::Numeric(NumericConverter::new()),
        Converter::Text(StringConverter::new()),
        Converter::Boolean(BooleanConverter::new()),
        Converter::Special(SpecialTypeConverter::new()),
    ];
    assert(r@ =~= spec_builtin_converters());
    r
}

/// The numeric converter supports a type exactly when its compact name is
/// one of the fourteen primitive integer and float types of Rust, or when it
/// is `Option<T>` and the compact name of `T` is one of them.
pub proof fn lemma_numeric_converter_supports(t: SynTypeV)
    ensures
        NumericConverter.spec_supports(t) <==> ({
            let name = if spec_is_option_type(t) {
                match spec_option_inner(t) {
                    Some(inner) => Some(spec_compact_name(inner)),
                    None => None,
                }
            } else {
                Some(spec_compact_name(t))
            };
            name matches Some(n) && (n == "i8"@ || n == "i16"@ || n == "i32"@ || n == "i64"@ || n
                == "i128"@ || n == "isize"@ || n == "u8"@ || n == "u16"@ || n == "u32"@ || n
                == "u64"@ || n == "u128"@ || n == "usize"@ || n == "f32"@ || n == "f64"@)
        }),
{
}

/// The string converter supports a type exactly when its compact name is
/// `String`, `str` or `&str`, or when it is `Option<T>` and the compact name
/// of `T` is one of them.
pub proof fn lemma_string_converter_supports(t: SynTypeV)
    ensures
        StringConverter.spec_supports(t) <==> ({
            let name = if spec_is_option_type(t) {
                match spec_option_inner(t) {
                    Some(inner) => Some(spec_compact_name(inner)),
                    None => None,
                }
            } else {
                Some(spec_compact_name(t))
            };
            name matches Some(n) && (n == "String"@ || n == "str"@ || n == "&str"@)
        }),
{
}

/// The boolean converter supports a type exactly when its compact name is
/// `bool`, or when it is `Option<T>` and the compact name of `T` is `bool`.
pub proof fn lemma_boolean_converter_supports(t: SynTypeV)
    ensures
        BooleanConverter.spec_supports(t) <==> ({
            let name = if spec_is_option_type(t) {
                match spec_option_inner(t) {
                    Some(inner) => Some(spec_compact_name(inner)),
                    None => None,
                }
            } else {
                Some(spec_compact_name(t))
            };
            name == Some("bool"@)
        }),
{
}

/// The numeric converter's basic types are the types whose compact name is
/// a numeric type name.
pub proof fn lemma_basic_numeric_names(t: SynTypeV)
    ensures
        spec_basic_numeric(t) == spec_is_numeric_name(spec_compact_name(t)),
{
}

proof fn lemma_remove_spaces_fixed(s: Seq<char>)
    requires
        !s.contains(' '),
    ensures
        spec_remove_spaces(s) == s,
    decreases s.len(),
{
    if s.len() > 0 {
        assert(s.drop_last().len() < s.len());
        assert(!s.drop_last().contains(' ')) by {
            if s.drop_last().contains(' ') {
                let k = choose|k: int| 0 <= k < s.drop_last().len() && s.drop_last()[k] == ' ';
                assert(s[k] == ' ');
            }
        }
        assert(s[s.len() - 1] != ' ');
        lemma_remove_spaces_fixed(s.drop_last());
        assert(s.drop_last().push(s.last()) =~= s);
    }
}

/// The field analysis and the numeric converter agree: a type is analysed
/// as numeric exactly when the numeric converter supports it, for a type
/// that is not an `Option` and for `Option<T>` with `T` not an `Option`,
/// where the short names hold no space.
pub proof fn lemma_numeric_analysis_agrees(t: SynTypeV)
    requires
        spec_is_option_type(t) ==> (spec_option_inner(t) matches Some(inner) && !spec_is_option_type(
            inner,
        ) && !spec_type_name(inner).contains(' ')),
        !spec_is_option_type(t) ==> !spec_type_name(t).contains(' '),
    ensures
        spec_is_numeric_name(spec_base_type_name(spec_analyze_field_type(t)))
            == NumericConverter.spec_supports(t),
{
    if spec_is_option_type(t) {
        let inner = spec_option_inner(t)->Some_0;
        lemma_remove_spaces_fixed(spec_type_name(inner));
        let ii = spec_analyze_field_type(inner);
        assert(!ii.is_optional && ii.simple_name == spec_type_name(inner));
        assert(spec_base_type_name(ii) == spec_type_name(inner));
        let a = spec_analyze_field_type(t);
        assert(a.is_optional && a.inner_type == Some(Box::new(ii)));
        assert(spec_base_type_name(a) == spec_base_type_name(ii));
        assert(spec_basic_numeric(inner) == spec_is_numeric_name(spec_type_name(inner)));
    } else {
        lemma_remove_spaces_fixed(spec_type_name(t));
    }
}

} // verus!
