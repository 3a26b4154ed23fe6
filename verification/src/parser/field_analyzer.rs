//! Analysis of struct fields: their types, as far as the conversion to
//! attribute values depends on them, and their markers.

use vstd::prelude::*;
use vstd::string::*;
use crate::common::error::{MacroError, MacroErrorV, MacroResult, unit_result_view};
use crate::common::utils::{
    extract_option_inner_type, extract_type_name, is_option_type, is_supported_basic_type,
    is_valid_identifier, spec_is_option_type, spec_is_supported_basic_type,
    spec_is_valid_identifier, spec_option_inner, spec_type_name,
};
use crate::syntax::{
    SpanRef, SynAttribute, SynAttributeV, SynField, SynFieldV, SynGenericArgumentV, SynMeta,
    SynMetaV, SynPathArgumentsV, SynType, SynTypeKindV, SynTypeV, fields_view,
};
use crate::text::{concat3, str_eq, strings_view};

verus! {

broadcast use vstd::std_specs::vec::group_vec_axioms;

/// What the analysis found about a field's type.
#[derive(Debug)]
pub struct FieldTypeInfo {
    /// The type's token text.
    pub original_type: String,
    /// The type's short name (see `extract_type_name`).
    pub simple_name: String,
    /// Whether the type is an `Option<T>`.
    pub is_optional: bool,
    /// For `Option<T>`, the analysis of `T`.
    pub inner_type: Option<Box<FieldTypeInfo>>,
    /// Whether values of the type can be turned into attribute values.
    pub is_supported: bool,
}

/// The analysis of one field.
#[derive(Debug)]
pub struct FieldAnalysis {
    /// The field's name.
    pub name: String,
    /// The analysis of its type.
    pub type_info: FieldTypeInfo,
    /// Whether it carries `#[attr]`.
    pub is_marked_as_attr: bool,
    /// The names of its single-identifier attributes, in order.
    pub attributes: Vec<String>,
    /// The field itself.
    pub original_field: SynField,
    /// Its position among the fields analysed together.
    pub field_index: usize,
}

/// Analyses fields.
pub struct FieldAnalyzer;

pub ghost struct FieldTypeInfoV {
    pub original_type: Seq<char>,
    pub simple_name: Seq<char>,
    pub is_optional: bool,
    pub inner_type: Option<Box<FieldTypeInfoV>>,
    pub is_supported: bool,
}

pub ghost struct FieldAnalysisV {
    pub name: Seq<char>,
    pub type_info: FieldTypeInfoV,
    pub is_marked_as_attr: bool,
    pub attributes: Seq<Seq<char>>,
    pub original_field: SynFieldV,
    pub field_index: usize,
}

pub open spec fn type_info_view(t: FieldTypeInfo) -> FieldTypeInfoV
    decreases t,
{
    FieldTypeInfoV {
        original_type: t.original_type@,
        simple_name: t.simple_name@,
        is_optional: t.is_optional,
        inner_type: match t.inner_type {
            Some(b) => Some(Box::new(type_info_view(*b))),
            None => None,
        },
        is_supported: t.is_supported,
    }
}

impl View for FieldTypeInfo {
    type V = FieldTypeInfoV;

    open spec fn view(&self) -> FieldTypeInfoV {
        type_info_view(*self)
    }
}

impl View for FieldAnalysis {
    type V = FieldAnalysisV;

    open spec fn view(&self) -> FieldAnalysisV {
        FieldAnalysisV {
            name: self.name@,
            type_info: self.type_info@,
            is_marked_as_attr: self.is_marked_as_attr,
            attributes: strings_view(self.attributes@),
            original_field: self.original_field@,
            field_index: self.field_index,
        }
    }
}

pub open spec fn analyses_view(v: Seq<FieldAnalysis>) -> Seq<FieldAnalysisV> {
    v.map_values(|a: FieldAnalysis| a@)
}

// ------------------------------------------------------------------ specs

/// How deeply `Option`s are nested in a type: the measure that the analysis
/// of a type descends on.
pub open spec fn spec_option_depth(t: SynTypeV) -> nat
    decreases t,
{
    match t.kind {
        SynTypeKindV::Path(segs) => if segs.len() > 0 && segs[segs.len() - 1].ident == "Option"@ {
            match segs[segs.len() - 1].arguments {
                SynPathArgumentsV::AngleBracketed(args) => if args.len() > 0 {
                    match args[0] {
                        SynGenericArgumentV::Type(inner) => 1 + spec_option_depth(inner),
                        SynGenericArgumentV::Other => 0,
                    }
                } else {
                    0
                },
                _ => 0,
            }
        } else {
            0
        },
        _ => 0,
    }
}

/// The analysis of a type: an `Option<T>` is supported when `T` is (and is
/// unsupported when `T` cannot be read); any other type when it is one of
/// the supported basic types.
pub open spec fn spec_analyze_field_type(t: SynTypeV) -> FieldTypeInfoV
    decreases spec_option_depth(t),
{
    if spec_is_option_type(t) {
        match spec_option_inner(t) {
            Some(inner) => {
                let ii = spec_analyze_field_type(inner);
                FieldTypeInfoV {
                    original_type: t.tokens,
                    simple_name: spec_type_name(t),
                    is_optional: true,
                    inner_type: Some(Box::new(ii)),
                    is_supported: ii.is_supported,
                }
            },
            None => FieldTypeInfoV {
                original_type: t.tokens,
                simple_name: spec_type_name(t),
                is_optional: true,
                inner_type: None,
                is_supported: false,
            },
        }
    } else {
        FieldTypeInfoV {
            original_type: t.tokens,
            simple_name: spec_type_name(t),
            is_optional: false,
            inner_type: None,
            is_supported: spec_is_supported_basic_type(t),
        }
    }
}

/// `#[attr]` must be bare here.
pub open spec fn spec_validate_attr_attribute(a: SynAttributeV, span: SpanRef) -> Result<
    (),
    MacroErrorV,
> {
    match a.meta {
        SynMetaV::Path => Ok(()),
        SynMetaV::List(_) => Err(
            MacroErrorV::ParseError {
                message: "#[attr] 不支持参数，请使用简单的 #[attr] 标记"@,
                span: Some(span),
            },
        ),
        SynMetaV::NameValue(_) => Err(
            MacroErrorV::ParseError {
                message: "#[attr] 不支持值赋值，请使用简单的 #[attr] 标记"@,
                span: Some(span),
            },
        ),
    }
}

/// Reading the first `n` attributes of the field with this index: whether
/// `#[attr]` was seen, and the names seen.
pub open spec fn spec_scan_field_markers(attrs: Seq<SynAttributeV>, index: usize, n: nat) -> Result<
    (bool, Seq<Seq<char>>),
    MacroErrorV,
>
    decreases n,
{
    if n == 0 {
        Ok((false, Seq::empty()))
    } else {
        match spec_scan_field_markers(attrs, index, (n - 1) as nat) {
            Err(e) => Err(e),
            Ok((marked, names)) => {
                let a = attrs[n - 1];
                match a.path_ident {
                    None => Ok((marked, names)),
                    Some(id) => if id == "attr"@ {
                        match spec_validate_attr_attribute(
                            a,
                            SpanRef::FieldAttr(index, (n - 1) as usize),
                        ) {
                            Ok(()) => Ok((true, names.push(id))),
                            Err(e) => Err(e),
                        }
                    } else {
                        Ok((marked, names.push(id)))
                    },
                }
            },
        }
    }
}

/// The analysis of the field with this index.
pub open spec fn spec_analyze_field(f: SynFieldV, index: usize) -> Result<FieldAnalysisV, MacroErrorV> {
    match f.ident {
        None => Err(
            MacroErrorV::ParseError {
                message: "字段缺少名称（不支持匿名字段）"@,
                span: Some(SpanRef::Field(index)),
            },
        ),
        Some(name) => match spec_scan_field_markers(f.attrs, index, f.attrs.len()) {
            Err(e) => Err(e),
            Ok((marked, names)) => Ok(
                FieldAnalysisV {
                    name,
                    type_info: spec_analyze_field_type(f.ty),
                    is_marked_as_attr: marked,
                    attributes: names,
                    original_field: f,
                    field_index: index,
                },
            ),
        },
    }
}

/// The analyses of the first `n` fields.
pub open spec fn spec_analyze_fields(fields: Seq<SynFieldV>, n: nat) -> Result<
    Seq<FieldAnalysisV>,
    MacroErrorV,
>
    decreases n,
{
    if n == 0 {
        Ok(Seq::empty())
    } else {
        match spec_analyze_fields(fields, (n - 1) as nat) {
            Err(e) => Err(e),
            Ok(acc) => match spec_analyze_field(fields[n - 1], (n - 1) as usize) {
                Err(e) => Err(e),
                Ok(a) => Ok(acc.push(a)),
            },
        }
    }
}

/// A field whose type cannot be turned into an attribute value is refused.
pub open spec fn spec_validate_field_type_support(a: FieldAnalysisV) -> Result<(), MacroErrorV> {
    let refuse = |shown: Seq<char>|
        MacroErrorV::UnsupportedFieldType {
            field_name: a.name,
            field_type: shown,
            span: Some(SpanRef::Field(a.field_index)),
        };
    if !a.type_info.is_supported {
        Err(refuse(a.type_info.simple_name))
    } else if a.type_info.is_optional && a.type_info.inner_type is Some
        && !a.type_info.inner_type->Some_0.is_supported {
        Err(refuse(a.type_info.inner_type->Some_0.simple_name))
    } else {
        Ok(())
    }
}

/// The first of the first `n` analyses whose type is refused.
pub open spec fn spec_validate_all_field_types(analyses: Seq<FieldAnalysisV>, n: nat) -> Result<
    (),
    MacroErrorV,
>
    decreases n,
{
    if n == 0 {
        Ok(())
    } else {
        match spec_validate_all_field_types(analyses, (n - 1) as nat) {
            Err(e) => Err(e),
            Ok(()) => spec_validate_field_type_support(analyses[n - 1]),
        }
    }
}

/// The name on which the code generators base a type: `T` of `Option<T>`,
/// followed down, and otherwise the short name.
pub open spec fn spec_base_type_name(t: FieldTypeInfoV) -> Seq<char>
    decreases t,
{
    if t.is_optional {
        match t.inner_type {
            Some(inner) => spec_base_type_name(*inner),
            None => t.simple_name,
        }
    } else {
        t.simple_name
    }
}

/// The string type names.
pub open spec fn spec_is_string_name(n: Seq<char>) -> bool {
    n == "String"@ || n == "str"@ || n == "&str"@ || n == "& str"@
}

/// The numeric type names.
pub open spec fn spec_is_numeric_name(n: Seq<char>) -> bool {
    n == "i8"@ || n == "i16"@ || n == "i32"@ || n == "i64"@ || n == "i128"@ || n == "isize"@ || n
        == "u8"@ || n == "u16"@ || n == "u32"@ || n == "u64"@ || n == "u128"@ || n == "usize"@ || n
        == "f32"@ || n == "f64"@
}

pub open spec fn analysis_result_view(r: MacroResult<FieldAnalysis>) -> Result<FieldAnalysisV, MacroErrorV> {
    match r {
        Ok(a) => Ok(a@),
        Err(e) => Err(e@),
    }
}

pub open spec fn analyses_result_view(r: MacroResult<Vec<FieldAnalysis>>) -> Result<
    Seq<FieldAnalysisV>,
    MacroErrorV,
> {
    match r {
        Ok(v) => Ok(analyses_view(v@)),
        Err(e) => Err(e@),
    }
}

pub open spec fn markers_result_view(r: MacroResult<(bool, Vec<String>)>) -> Result<
    (bool, Seq<Seq<char>>),
    MacroErrorV,
> {
    match r {
        Ok((b, v)) => Ok((b, strings_view(v@))),
        Err(e) => Err(e@),
    }
}

proof fn lemma_markers_err(attrs: Seq<SynAttributeV>, index: usize, i: nat, n: nat)
    requires
        i <= n,
        spec_scan_field_markers(attrs, index, i) is Err,
    ensures
        spec_scan_field_markers(attrs, index, n) == spec_scan_field_markers(attrs, index, i),
    decreases n,
{
    if n > i {
        lemma_markers_err(attrs, index, i, (n - 1) as nat);
    }
}

proof fn lemma_analyze_fields_err(fields: Seq<SynFieldV>, i: nat, n: nat)
    requires
        i <= n,
        spec_analyze_fields(fields, i) is Err,
    ensures
        spec_analyze_fields(fields, n) == spec_analyze_fields(fields, i),
    decreases n,
{
    if n > i {
        lemma_analyze_fields_err(fields, i, (n - 1) as nat);
    }
}

proof fn lemma_all_types_err(analyses: Seq<FieldAnalysisV>, i: nat, n: nat)
    requires
        i <= n,
        spec_validate_all_field_types(analyses, i) is Err,
    ensures
        spec_validate_all_field_types(analyses, n) == spec_validate_all_field_types(analyses, i),
    decreases n,
{
    if n > i {
        lemma_all_types_err(analyses, i, (n - 1) as nat);
    }
}

// ------------------------------------------------------------------ code

impl FieldAnalyzer {
    /// Analyses a type (see `spec_analyze_field_type`).
    pub fn analyze_field_type(field_type: &SynType) -> (r: FieldTypeInfo)
        ensures
            r@ == spec_analyze_field_type(field_type@),
        decreases spec_option_depth(field_type@),
    {
        let original_type = field_type.tokens.clone();
        let simple_name = extract_type_name(field_type);
        if is_option_type(field_type) {
            match extract_option_inner_type(field_type) {
                Some(inner) => {
                    let inner_info = Self::analyze_field_type(inner);
                    let is_supported = inner_info.is_supported;
                    FieldTypeInfo {
                        original_type,
                        simple_name,
                        is_optional: true,
                        inner_type: Some(Box::new(inner_info)),
                        is_supported,
                    }
                },
                None => FieldTypeInfo {
                    original_type,
                    simple_name,
                    is_optional: true,
                    inner_type: None,
                    is_supported: false,
                },
            }
        } else {
            let is_supported = is_supported_basic_type(field_type);
            FieldTypeInfo { original_type, simple_name, is_optional: false, inner_type: None, is_supported }
        }
    }
    /// Analyses the field with this index: its name (a field without one is
    /// refused), its type and its markers.
    pub fn analyze_field(field: &SynField, index: usize) -> (r: MacroResult<FieldAnalysis>)
        ensures
            analysis_result_view(r) == spec_analyze_field(field@, index),
    {
        let name = match &field.ident {
            Some(n) => n.clone(),
            None => {
                return Err(MacroError::parse_error("字段缺少名称（不支持匿名字段）", SpanRef::Field(index)));
            },
        };
        let type_info = Self::analyze_field_type(&field.ty);
        let (is_marked_as_attr, attributes) = match Self::analyze_field_attributes(field, index) {
            Ok(m) => m,
            Err(e) => return Err(e),
        };
        Ok(
            FieldAnalysis {
                name,
                type_info,
                is_marked_as_attr,
                attributes,
                original_field: field.duplicate(),
                field_index: index,
            },
        )
    }

    /// Analyses the fields in order, each with its position as index; the
    /// first failure is returned.
    pub fn analyze_fields(fields: &[SynField]) -> (r: MacroResult<Vec<FieldAnalysis>>)
        ensures
            analyses_result_view(r) == spec_analyze_fields(fields_view(fields@), fields@.len()),
    {
        let ghost fv = fields_view(fields@);
        let n = fields.len();
        let mut analyses: Vec<FieldAnalysis> = Vec::new();
        let mut i: usize = 0;
        assert(analyses_view(analyses@) =~= Seq::empty());
        while i < n
            invariant
                n == fields@.len(),
                fv == fields_view(fields@),
                i <= n,
                spec_analyze_fields(fv, i as nat) == Ok::<Seq<FieldAnalysisV>, MacroErrorV>(
                    analyses_view(analyses@),
                ),
            decreases n - i,
        {
            assert(fv[i as int] == fields@[i as int]@);
            match Self::analyze_field(&fields[i], i) {
                Ok(a) => {
                    let ghost old_v = analyses@;
                    analyses.push(a);
                    assert(analyses_view(analyses@) =~= analyses_view(old_v).push(a@));
                },
                Err(e) => {
                    proof {
                        lemma_analyze_fields_err(fv, (i + 1) as nat, n as nat);
                    }
                    return Err(e);
                },
            }
            i = i + 1;
        }
        Ok(analyses)
    }

    /// The analyses of fields marked `#[attr]`, in order.
    pub fn filter_attr_fields(analyses: &[FieldAnalysis]) -> (r: Vec<&FieldAnalysis>)
        ensures
            r@.map_values(|a: &FieldAnalysis| a@) == analyses_view(analyses@).filter(
                |a: FieldAnalysisV| a.is_marked_as_attr,
            ),
    {
        let ghost av = analyses_view(analyses@);
        let ghost keep = |a: FieldAnalysisV| a.is_marked_as_attr;
        let n = analyses.len();
        let mut out: Vec<&FieldAnalysis> = Vec::new();
        let mut i: usize = 0;
        proof {
            reveal(Seq::filter);
            assert(av.take(0) =~= Seq::<FieldAnalysisV>::empty());
            assert(out@.map_values(|a: &FieldAnalysis| a@) =~= Seq::<FieldAnalysisV>::empty());
        }
        while i < n
            invariant
                n == analyses@.len(),
                av == analyses_view(analyses@),
                keep == (|a: FieldAnalysisV| a.is_marked_as_attr),
                i <= n,
                out@.map_values(|a: &FieldAnalysis| a@) == av.take(i as int).filter(keep),
            decreases n - i,
        {
            let a = &analyses[i];
            let ghost old_out = out@;
            proof {
                reveal(Seq::filter);
                assert(av.take(i + 1).drop_last() =~= av.take(i as int));
                assert(av.take(i + 1).last() == a@);
            }
            if a.is_marked_as_attr {
                out.push(a);
                assert(out@.map_values(|a: &FieldAnalysis| a@) =~= old_out.map_values(
                    |a: &FieldAnalysis| a@,
                ).push(a@));
            }
            i = i + 1;
        }
        assert(av.take(n as int) =~= av);
        out
    }

    /// Refuses a field whose type cannot be turned into an attribute value.
    pub fn validate_field_type_support(analysis: &FieldAnalysis) -> (r: MacroResult<()>)
        ensures
            unit_result_view(r) == spec_validate_field_type_support(analysis@),
    {
        let span = SpanRef::Field(analysis.field_index);
        proof {
            reveal_with_fuel(type_info_view, 2);
        }
        if !analysis.type_info.is_supported {
            return Err(
                MacroError::unsupported_field_type(
                    analysis.name.as_str(),
                    analysis.type_info.simple_name.as_str(),
                    span,
                ),
            );
        }
        if analysis.type_info.is_optional {
            if let Some(inner) = &analysis.type_info.inner_type {
                if !inner.is_supported {
                    return Err(
                        MacroError::unsupported_field_type(
                            analysis.name.as_str(),
                            inner.simple_name.as_str(),
                            span,
                        ),
                    );
                }
            }
        }
        Ok(())
    }

    /// Checks every analysis in order; the first refusal is returned.
    pub fn validate_all_field_types(analyses: &[FieldAnalysis]) -> (r: MacroResult<()>)
        ensures
            unit_result_view(r) == spec_validate_all_field_types(
                analyses_view(analyses@),
                analyses@.len(),
            ),
    {
        let ghost av = analyses_view(analyses@);
        let n = analyses.len();
        let mut i: usize = 0;
        while i < n
            invariant
                n == analyses@.len(),
                av == analyses_view(analyses@),
                i <= n,
                spec_validate_all_field_types(av, i as nat) == Ok::<(), MacroErrorV>(()),
            decreases n - i,
        {
            assert(av[i as int] == analyses@[i as int]@);
            match Self::validate_field_type_support(&analyses[i]) {
                Ok(()) => {},
                Err(e) => {
                    proof {
                        lemma_all_types_err(av, (i + 1) as nat, n as nat);
                    }
                    return Err(e);
                },
            }
            i = i + 1;
        }
        Ok(())
    }

    /// The field's markers: whether it carries `#[attr]` (which must be
    /// bare), and the names of its single-identifier attributes.
    pub fn analyze_field_attributes(field: &SynField, index: usize) -> (r: MacroResult<
        (bool, Vec<String>),
    >)
        ensures
            markers_result_view(r) == spec_scan_field_markers(
                field@.attrs,
                index,
                field@.attrs.len(),
            ),
    {
        let ghost attrs = field@.attrs;
        let n = field.attrs.len();
        let mut marked = false;
        let mut names: Vec<String> = Vec::new();
        let mut i: usize = 0;
        assert(strings_view(names@) =~= Seq::empty());
        while i < n
            invariant
                n == field.attrs@.len(),
                attrs == field@.attrs,
                attrs.len() == n,
                i <= n,
                spec_scan_field_markers(attrs, index, i as nat) == Ok::<
                    (bool, Seq<Seq<char>>),
                    MacroErrorV,
                >((marked, strings_view(names@))),
            decreases n - i,
        {
            let a = &field.attrs[i];
            assert(attrs[i as int] == a@);
            if let Some(id) = &a.path_ident {
                let ghost old_names = names@;
                names.push(id.clone());
                assert(strings_view(names@) =~= strings_view(old_names).push(id@));
                if str_eq(id.as_str(), "attr") {
                    marked = true;
                    match Self::validate_attr_attribute(a, SpanRef::FieldAttr(index, i)) {
                        Ok(()) => {},
                        Err(e) => {
                            proof {
                                lemma_markers_err(attrs, index, (i + 1) as nat, n as nat);
                            }
                            return Err(e);
                        },
                    }
                }
            }
            i = i + 1;
        }
        Ok((marked, names))
    }

    /// `#[attr]` must be bare here; `span` is where the attribute stands.
    pub fn validate_attr_attribute(attr: &SynAttribute, span: SpanRef) -> (r: MacroResult<()>)
        ensures
            unit_result_view(r) == spec_validate_attr_attribute(attr@, span),
    {
        match &attr.meta {
            SynMeta::Path => Ok(()),
            SynMeta::List(_) => Err(
                MacroError::parse_error("#[attr] 不支持参数，请使用简单的 #[attr] 标记", span),
            ),
            SynMeta::NameValue(_) => Err(
                MacroError::parse_error("#[attr] 不支持值赋值，请使用简单的 #[attr] 标记", span),
            ),
        }
    }
}

impl FieldTypeInfo {
    /// The name used for the type in generated code: its short name.
    pub fn codegen_type_name(&self) -> (r: &str)
        ensures
            r@ == self@.simple_name,
    {
        self.simple_name.as_str()
    }

    /// The base name: that of `T` for `Option<T>`, followed down.
    pub fn base_type_name(&self) -> (r: &str)
        ensures
            r@ == spec_base_type_name(self@),
        decreases self,
    {
        if self.is_optional {
            match &self.inner_type {
                Some(inner) => inner.base_type_name(),
                None => self.simple_name.as_str(),
            }
        } else {
            self.simple_name.as_str()
        }
    }

    /// Whether the base name is `String`, `str` or `&str` (which the token
    /// printer writes `& str`).
    pub fn is_string_type(&self) -> (r: bool)
        ensures
            r == spec_is_string_name(spec_base_type_name(self@)),
    {
        let b = self.base_type_name();
        str_eq(b, "String") || str_eq(b, "str") || str_eq(b, "&str") || str_eq(b, "& str")
    }

    /// Whether the base name is one of the integer or float types.
    pub fn is_numeric_type(&self) -> (r: bool)
        ensures
            r == spec_is_numeric_name(spec_base_type_name(self@)),
    {
        let b = self.base_type_name();
        str_eq(b, "i8") || str_eq(b, "i16") || str_eq(b, "i32") || str_eq(b, "i64") || str_eq(
            b,
            "i128",
        ) || str_eq(b, "isize") || str_eq(b, "u8") || str_eq(b, "u16") || str_eq(b, "u32")
            || str_eq(b, "u64") || str_eq(b, "u128") || str_eq(b, "usize") || str_eq(b, "f32")
            || str_eq(b, "f64")
    }
}

/// Checking a field as an attribute field: it carries `#[attr]`, its name is
/// a valid identifier, and its type is supported.
pub open spec fn spec_validate_as_attribute(a: FieldAnalysisV) -> Result<(), MacroErrorV> {
    let span = Some(SpanRef::Field(a.field_index));
    if !a.is_marked_as_attr {
        Err(
            MacroErrorV::ValidationError {
                message: "字段 '"@ + a.name + "' 没有 #[attr] 标记"@,
                span,
            },
        )
    } else if !spec_is_valid_identifier(a.name) {
        Err(
            MacroErrorV::ValidationError {
                message: "字段名称 '"@ + a.name + "' 不是有效的标识符"@,
                span,
            },
        )
    } else {
        spec_validate_field_type_support(a)
    }
}

/// The one-line description of an analysis.
pub open spec fn spec_display_info(a: FieldAnalysisV) -> Seq<char> {
    "字段 '"@ + a.name + "': "@ + a.type_info.simple_name + " ("@ + (if a.type_info.is_optional {
        "可选, "@
    } else {
        "必需, "@
    }) + (if a.is_marked_as_attr {
        "带属性标记, "@
    } else {
        "无属性标记, "@
    }) + (if a.type_info.is_supported {
        "支持"@
    } else {
        "不支持"@
    }) + ")"@
}

impl FieldAnalysis {
    /// Checks the field as an attribute field (see `spec_validate_as_attribute`).
    pub fn validate_as_attribute(&self) -> (r: MacroResult<()>)
        ensures
            unit_result_view(r) == spec_validate_as_attribute(self@),
    {
        if !self.is_marked_as_attr {
            return Err(
                MacroError::validation_error(
                    concat3("字段 '", self.name.as_str(), "' 没有 #[attr] 标记").as_str(),
                    SpanRef::Field(self.field_index),
                ),
            );
        }
        if !is_valid_identifier(self.name.as_str()) {
            return Err(
                MacroError::validation_error(
                    concat3("字段名称 '", self.name.as_str(), "' 不是有效的标识符").as_str(),
                    SpanRef::Field(self.field_index),
                ),
            );
        }
        FieldAnalyzer::validate_field_type_support(self)
    }

    /// A one-line description: name, type, and whether it is optional,
    /// marked and supported.
    pub fn display_info(&self) -> (r: String)
        ensures
            r@ == spec_display_info(self@),
    {
        let mut s = String::from_str("字段 '");
        s.append(self.name.as_str());
        s.append("': ");
        s.append(self.type_info.simple_name.as_str());
        s.append(" (");
        s.append(if self.type_info.is_optional { "可选, " } else { "必需, " });
        s.append(if self.is_marked_as_attr { "带属性标记, " } else { "无属性标记, " });
        s.append(if self.type_info.is_supported { "支持" } else { "不支持" });
        s.append(")");
        s
    }
}

/// A type is never both a string type and a numeric type.
pub proof fn lemma_string_numeric_exclusive(t: FieldTypeInfoV)
    ensures
        !(spec_is_string_name(spec_base_type_name(t)) && spec_is_numeric_name(spec_base_type_name(t))),
{
    reveal_strlit("String");
    reveal_strlit("str");
    reveal_strlit("&str");
    reveal_strlit("& str");
    reveal_strlit("i8");
    reveal_strlit("i16");
    reveal_strlit("i32");
    reveal_strlit("i64");
    reveal_strlit("i128");
    reveal_strlit("isize");
    reveal_strlit("u8");
    reveal_strlit("u16");
    reveal_strlit("u32");
    reveal_strlit("u64");
    reveal_strlit("u128");
    reveal_strlit("usize");
    reveal_strlit("f32");
    reveal_strlit("f64");
    let b = spec_base_type_name(t);
    if b == "String"@ {
        assert(b.len() == 6);
    } else if b == "str"@ {
        assert(b[0] == 's');
    } else if b == "&str"@ {
        assert(b[0] == '&');
    } else if b == "& str"@ {
        assert(b[0] == '&');
    }
}

/// The numeric type names are exactly the fourteen primitive integer and
/// float types of Rust.
pub proof fn lemma_numeric_names(n: Seq<char>)
    ensures
        spec_is_numeric_name(n) <==> (n == "i8"@ || n == "i16"@ || n == "i32"@ || n == "i64"@ || n
            == "i128"@ || n == "isize"@ || n == "u8"@ || n == "u16"@ || n == "u32"@ || n == "u64"@
            || n == "u128"@ || n == "usize"@ || n == "f32"@ || n == "f64"@),
{
}

/// An analysed type that is not an `Option` is numeric exactly when its
/// short name is one of the fourteen primitive integer and float types; an
/// `Option<T>` is numeric exactly when `T` is.
pub proof fn lemma_analyzed_numeric(t: SynTypeV)
    ensures
        !spec_is_option_type(t) ==> (spec_is_numeric_name(
            spec_base_type_name(spec_analyze_field_type(t)),
        ) <==> ({
            let n = spec_type_name(t);
            n == "i8"@ || n == "i16"@ || n == "i32"@ || n == "i64"@ || n == "i128"@ || n
                == "isize"@ || n == "u8"@ || n == "u16"@ || n == "u32"@ || n == "u64"@ || n
                == "u128"@ || n == "usize"@ || n == "f32"@ || n == "f64"@
        })),
        spec_is_option_type(t) ==> (spec_option_inner(t) matches Some(inner) ==> spec_base_type_name(
            spec_analyze_field_type(t),
        ) == spec_base_type_name(spec_analyze_field_type(inner))),
{
}

} // verus!
