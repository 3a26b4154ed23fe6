//! The converter interface and the general converter for every supported
//! type.

use vstd::prelude::*;
use vstd::string::*;
use crate::common::error::{MacroError, MacroErrorV, MacroResult};
use crate::common::utils::{
    extract_type_name, generate_field_conversion, is_supported_type, spec_field_conversion,
    spec_is_supported_type, spec_type_name,
};
use crate::parser::attribute_parser::string_result_view;
use crate::syntax::{SpanRef, SynField, SynFieldV, SynType, SynTypeV};

verus! {

/// A text in specifications: what a converter's name and code are, for the
/// verifier.
pub type SpecText = Seq<char>;

/// A converter from a field to the code that turns its value into a JSON
/// value.
pub trait TypeConverter {
    /// Whether the converter handles a type.
    spec fn spec_supports(&self, t: SynTypeV) -> bool;

    /// The converter's priority: the registry tries higher ones first.
    spec fn spec_priority(&self) -> i32;

    /// The converter's name.
    spec fn spec_name(&self) -> SpecText;

    /// The code for the field with this index, or why there is none.
    spec fn spec_convert(&self, f: SynFieldV, index: usize) -> Result<SpecText, MacroErrorV>;

    /// The conversion code for the named field with this index.
    fn convert_field_to_json_value(&self, field: &SynField, index: usize) -> (r: MacroResult<
        String,
    >)
        ensures
            string_result_view(r) == self.spec_convert(field@, index),
    ;

    /// Whether the converter handles this type.
    fn supports_type(&self, field_type: &SynType) -> (r: bool)
        ensures
            r == self.spec_supports(field_type@),
    ;

    /// The converter's priority.
    fn priority(&self) -> (r: i32)
        ensures
            r == self.spec_priority(),
    ;

    /// The converter's name.
    fn name(&self) -> (r: &'static str)
        ensures
            r@ == self.spec_name(),
    ;
}

/// How a field is named in messages: its name, or "匿名字段" without one.
pub open spec fn spec_field_label(f: SynFieldV) -> Seq<char> {
    match f.ident {
        Some(n) => n,
        None => "匿名字段"@,
    }
}

/// The refusal of a field whose type a converter does not handle.
pub open spec fn spec_unsupported_field(f: SynFieldV, index: usize) -> MacroErrorV {
    MacroErrorV::UnsupportedFieldType {
        field_name: spec_field_label(f),
        field_type: spec_type_name(f.ty),
        span: Some(SpanRef::Field(index)),
    }
}

/// Converting with a converter that does (`supported`) or does not handle
/// the field's type: the conversion code for a named field.
pub open spec fn spec_convert_when(supported: bool, f: SynFieldV, index: usize) -> Result<
    Seq<char>,
    MacroErrorV,
> {
    if !supported {
        Err(spec_unsupported_field(f, index))
    } else {
        match f.ident {
            None => Err(
                MacroErrorV::ParseError {
                    message: "字段缺少名称（不支持匿名字段）"@,
                    span: Some(SpanRef::Field(index)),
                },
            ),
            Some(n) => Ok(spec_field_conversion(n, f.ty)),
        }
    }
}

/// The refusal of a field whose type is not handled.
pub fn unsupported_field(field: &SynField, index: usize) -> (r: MacroError)
    ensures
        r@ == spec_unsupported_field(field@, index),
{
    let type_text = extract_type_name(&field.ty);
    let label = match &field.ident {
        Some(n) => n.clone(),
        None => String::from_str("匿名字段"),
    };
    MacroError::unsupported_field_type(label.as_str(), type_text.as_str(), SpanRef::Field(index))
}

/// The conversion of a field by a converter that does or does not handle
/// its type.
pub fn convert_when(supported: bool, field: &SynField, index: usize) -> (r: MacroResult<String>)
    ensures
        string_result_view(r) == spec_convert_when(supported, field@, index),
{
    if !supported {
        return Err(unsupported_field(field, index));
    }
    match &field.ident {
        None => Err(MacroError::parse_error("字段缺少名称（不支持匿名字段）", SpanRef::Field(index))),
        Some(n) => Ok(generate_field_conversion(n.as_str(), &field.ty)),
    }
}

/// The general converter: every supported basic type and `Option` of one.
#[derive(PartialEq, Eq, Structural, Clone, Copy, Debug)]
pub struct BuiltinTypeConverter;

impl BuiltinTypeConverter {
    pub fn new() -> (r: Self)
        ensures
            r == BuiltinTypeConverter,
    {
        BuiltinTypeConverter
    }
}

impl Default for BuiltinTypeConverter {
    fn default() -> (r: Self)
        ensures
            r == BuiltinTypeConverter,
    {
        BuiltinTypeConverter
    }
}

impl TypeConverter for BuiltinTypeConverter {
    open spec fn spec_supports(&self, t: SynTypeV) -> bool {
        spec_is_supported_type(t)
    }

    open spec fn spec_priority(&self) -> i32 {
        100
    }

    open spec fn spec_name(&self) -> Seq<char> {
        "BuiltinTypeConverter"@
    }

    open spec fn spec_convert(&self, f: SynFieldV, index: usize) -> Result<Seq<char>, MacroErrorV> {
        spec_convert_when(self.spec_supports(f.ty), f, index)
    }

    fn convert_field_to_json_value(&self, field: &SynField, index: usize) -> (r: MacroResult<
        String,
    >) {
        let supported = self.supports_type(&field.ty);
        convert_when(supported, field, index)
    }

    fn supports_type(&self, field_type: &SynType) -> (r: bool) {
        is_supported_type(field_type)
    }

    fn priority(&self) -> (r: i32) {
        100
    }

    fn name(&self) -> (r: &'static str) {
        "BuiltinTypeConverter"
    }
}

} // verus!
