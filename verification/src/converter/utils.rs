//! Helpers over the process-wide converter registry, and the description of
//! the supported types.

use vstd::prelude::*;
use vstd::string::*;
use crate::common::error::{MacroErrorV, MacroResult};
use crate::converter::converter_registry::{
    ConverterRegistryImpl, GlobalConverterRegistry, spec_find, spec_lock_message,
    spec_registry_convert,
};
use crate::parser::attribute_parser::string_result_view;
use crate::converter::type_converter::TypeConverter;
use crate::syntax::{SynField, SynType};

verus! {

broadcast use vstd::std_specs::vec::group_vec_axioms;

/// Converts the named field with this index through the registry (see
/// `GlobalConverterRegistry::convert_field`).
pub fn convert_field<U: TypeConverter>(
    registry: &ConverterRegistryImpl<U>,
    lock_error: Option<String>,
    field: &SynField,
    index: usize,
) -> (r: MacroResult<String>)
    ensures
        string_result_view(r) == match lock_error {
            Some(e) => Err(
                MacroErrorV::GenerationError {
                    message: spec_lock_message("无法获取注册表读锁: "@, e@),
                    span: None,
                },
            ),
            None => spec_registry_convert(registry@, field@, index),
        },
{
    GlobalConverterRegistry::convert_field(registry, lock_error, field, index)
}

/// Whether some registered converter handles the type; `false` when the
/// registry could not be read.
pub fn is_type_supported<U: TypeConverter>(
    registry: &ConverterRegistryImpl<U>,
    lock_error: Option<String>,
    field_type: &SynType,
) -> (r: bool)
    ensures
        r == (lock_error is None && spec_find(registry@, field_type@) is Some),
{
    match GlobalConverterRegistry::supports_type(registry, lock_error, field_type) {
        Ok(b) => b,
        Err(_) => false,
    }
}

/// The basic types the converters support, as listed to users.
pub open spec fn spec_supported_types() -> Seq<Seq<char>> {
    seq![
        "String"@,
        "&str"@,
        "str"@,
        "i8"@,
        "i16"@,
        "i32"@,
        "i64"@,
        "i128"@,
        "isize"@,
        "u8"@,
        "u16"@,
        "u32"@,
        "u64"@,
        "u128"@,
        "usize"@,
        "f32"@,
        "f64"@,
        "bool"@,
    ]
}

/// The basic types the converters support.
pub fn get_supported_types() -> (r: Vec<&'static str>)
    ensures
        r@.map_values(|s: &str| s@) == spec_supported_types(),
{
    let r = vec![
        "String",
        "&str",
        "str",
        "i8",
        "i16",
        "i32",
        "i64",
        "i128",
        "isize",
        "u8",
        "u16",
        "u32",
        "u64",
        "u128",
        "usize",
        "f32",
        "f64",
        "bool",
    ];
    assert(r@.map_values(|s: &str| s@) =~= spec_supported_types());
    r
}

/// The first `n` names joined by `", "`.
pub open spec fn spec_join(names: Seq<Seq<char>>, n: nat) -> Seq<char>
    decreases n,
{
    if n == 0 {
        Seq::empty()
    } else if n == 1 {
        names[0]
    } else {
        spec_join(names, (n - 1) as nat) + ", "@ + names[n - 1]
    }
}

/// The hint listing the supported types.
pub open spec fn spec_supported_types_hint() -> Seq<char> {
    "支持的基本类型: "@ + spec_join(spec_supported_types(), 18)
        + "\n支持的可选类型: Option<T> (其中 T 是上述任意基本类型)\n\n示例：\n- String, Option<String>\n- i32, Option<i32>\n- bool, Option<bool>\n\n如需支持其他类型，请实现自定义 TypeConverter 并注册到全局注册表。"@
}

/// A hint listing the supported types, with examples.
pub fn generate_supported_types_hint() -> (r: String)
    ensures
        r@ == spec_supported_types_hint(),
{
    let basic_types = get_supported_types();
    let ghost names = basic_types@.map_values(|s: &str| s@);
    let mut list = String::new();
    let mut i: usize = 0;
    while i < basic_types.len()
        invariant
            i <= basic_types@.len(),
            names == basic_types@.map_values(|s: &str| s@),
            names == spec_supported_types(),
            list@ == spec_join(names, i as nat),
        decreases basic_types@.len() - i,
    {
        assert(names[i as int] == basic_types@[i as int]@);
        if i > 0 {
            list.append(", ");
        }
        list.append(basic_types[i]);
        proof {
            if i == 0 {
                assert(list@ =~= names[0]);
            }
        }
        i = i + 1;
    }
    assert(spec_supported_types().len() == 18);
    assert(i == 18);
    let mut s = String::from_str("支持的基本类型: ");
    s.append(list.as_str());
    s.append(
        "\n支持的可选类型: Option<T> (其中 T 是上述任意基本类型)\n\n示例：\n- String, Option<String>\n- i32, Option<i32>\n- bool, Option<bool>\n\n如需支持其他类型，请实现自定义 TypeConverter 并注册到全局注册表。",
    );
    s
}

} // verus!
