//! Parsing of the `#[derive(Node)]` and `#[derive(Mark)]` attributes into
//! configurations.
//!
//! Struct-level attributes are read in order; a later `#[node_type = ..]`
//! replaces an earlier one. The first error met, in source order, is the one
//! reported.

use vstd::prelude::*;
use vstd::string::*;
use crate::common::error::{MacroError, MacroErrorV, MacroResult, unit_result_view};
use crate::common::utils::{
    is_option_type, is_valid_identifier, remove_spaces, spec_is_option_type,
    spec_is_valid_identifier, spec_remove_spaces,
};
use crate::parser::default_value::{
    DefaultValue, DefaultValueParser, DefaultValueV, spec_parse_default_value,
};
use crate::syntax::{
    SpanRef, SynAttribute, SynAttributeV, SynData, SynDataV, SynDeriveInput, SynDeriveInputV,
    SynExpr, SynExprV, SynField, SynFieldV, SynFields, SynFieldsV, SynLit, SynLitV, SynMeta,
    SynMetaV, SynNestedMeta, SynNestedMetaV, fields_view, nested_meta_view, opt_view, duplicate_opt,
    meta_list_view, data_view,
};
use crate::text::{
    concat, concat3, is_blank, spec_all_whitespace, spec_words, split_whitespace, str_eq, strings_view,
};

verus! {

broadcast use vstd::std_specs::vec::group_vec_axioms;

/// Configuration of `#[derive(Node)]`.
#[derive(Debug)]
pub struct NodeConfig {
    /// `#[node_type = ".."]`, required.
    pub node_type: Option<String>,
    /// `#[desc = ".."]`.
    pub desc: Option<String>,
    /// `#[marks = ".."]`: the space-separated mark names as written.
    pub marks: Option<String>,
    /// `#[content = ".."]`: the content expression.
    pub content: Option<String>,
    /// The fields marked `#[attr]`, in order.
    pub attr_fields: Vec<FieldConfig>,
    /// The field marked `#[id]`, if any.
    pub id_field: Option<FieldConfig>,
}

/// Configuration of `#[derive(Mark)]`.
#[derive(Debug)]
pub struct MarkConfig {
    /// `#[mark_type = ".."]`, required.
    pub mark_type: Option<String>,
    /// The fields marked `#[attr]`, in order.
    pub attr_fields: Vec<FieldConfig>,
}

/// A field taken into a configuration.
#[derive(Debug)]
pub struct FieldConfig {
    /// The field's name.
    pub name: String,
    /// The field's type as text, spaces removed.
    pub type_text: String,
    /// Whether the type is an `Option<T>`.
    pub is_optional: bool,
    /// Whether the field is marked `#[attr]`.
    pub is_attr: bool,
    /// The field itself.
    pub field: SynField,
    /// The field's position among the struct's named fields.
    pub field_index: usize,
    /// The default value from `#[attr(default = ..)]`, if any.
    pub default_value: Option<DefaultValue>,
}

pub ghost struct FieldConfigV {
    pub name: Seq<char>,
    pub type_text: Seq<char>,
    pub is_optional: bool,
    pub is_attr: bool,
    pub field: SynFieldV,
    pub field_index: usize,
    pub default_value: Option<DefaultValueV>,
}

pub ghost struct NodeConfigV {
    pub node_type: Option<Seq<char>>,
    pub desc: Option<Seq<char>>,
    pub marks: Option<Seq<char>>,
    pub content: Option<Seq<char>>,
    pub attr_fields: Seq<FieldConfigV>,
    pub id_field: Option<FieldConfigV>,
}

pub ghost struct MarkConfigV {
    pub mark_type: Option<Seq<char>>,
    pub attr_fields: Seq<FieldConfigV>,
}

pub open spec fn opt_default_view(d: Option<DefaultValue>) -> Option<DefaultValueV> {
    match d {
        Some(v) => Some(v@),
        None => None,
    }
}

impl View for FieldConfig {
    type V = FieldConfigV;

    open spec fn view(&self) -> FieldConfigV {
        FieldConfigV {
            name: self.name@,
            type_text: self.type_text@,
            is_optional: self.is_optional,
            is_attr: self.is_attr,
            field: self.field@,
            field_index: self.field_index,
            default_value: opt_default_view(self.default_value),
        }
    }
}

pub open spec fn field_configs_view(v: Seq<FieldConfig>) -> Seq<FieldConfigV> {
    v.map_values(|f: FieldConfig| f@)
}

pub open spec fn opt_field_config_view(o: Option<FieldConfig>) -> Option<FieldConfigV> {
    match o {
        Some(f) => Some(f@),
        None => None,
    }
}

impl View for NodeConfig {
    type V = NodeConfigV;

    open spec fn view(&self) -> NodeConfigV {
        NodeConfigV {
            node_type: opt_view(self.node_type),
            desc: opt_view(self.desc),
            marks: opt_view(self.marks),
            content: opt_view(self.content),
            attr_fields: field_configs_view(self.attr_fields@),
            id_field: opt_field_config_view(self.id_field),
        }
    }
}

impl View for MarkConfig {
    type V = MarkConfigV;

    open spec fn view(&self) -> MarkConfigV {
        MarkConfigV {
            mark_type: opt_view(self.mark_type),
            attr_fields: field_configs_view(self.attr_fields@),
        }
    }
}

impl Default for NodeConfig {
    fn default() -> (r: Self)
        ensures
            r@ == (NodeConfigV {
                node_type: None,
                desc: None,
                marks: None,
                content: None,
                attr_fields: Seq::empty(),
                id_field: None,
            }),
    {
        let r = NodeConfig {
            node_type: None,
            desc: None,
            marks: None,
            content: None,
            attr_fields: Vec::new(),
            id_field: None,
        };
        assert(field_configs_view(r.attr_fields@) =~= Seq::empty());
        r
    }
}

impl Default for MarkConfig {
    fn default() -> (r: Self)
        ensures
            r@ == (MarkConfigV { mark_type: None, attr_fields: Seq::empty() }),
    {
        let r = MarkConfig { mark_type: None, attr_fields: Vec::new() };
        assert(field_configs_view(r.attr_fields@) =~= Seq::empty());
        r
    }
}

// ------------------------------------------------------------------ specs

/// The attribute's name, or the empty string when its path is not a single
/// identifier.
pub open spec fn spec_attr_name(a: SynAttributeV) -> Seq<char> {
    match a.path_ident {
        Some(i) => i,
        None => Seq::empty(),
    }
}

/// Reading `#[key = "value"]`: the string value, which must be a non-empty
/// string literal.
pub open spec fn spec_parse_string_attribute(a: SynAttributeV, index: usize) -> Result<
    Seq<char>,
    MacroErrorV,
> {
    let invalid = |value: Seq<char>, reason: Seq<char>|
        MacroErrorV::InvalidAttributeValue {
            attribute: spec_attr_name(a),
            value,
            reason,
            span: Some(SpanRef::StructAttr(index)),
        };
    match a.meta {
        SynMetaV::NameValue(e) => match e {
            SynExprV::Lit(SynLitV::Str(v)) => if v.len() == 0 {
                Err(invalid(v, "属性值不能为空字符串"@))
            } else {
                Ok(v)
            },
            SynExprV::Lit(_) => Err(invalid("非字符串值"@, "属性值必须是字符串字面量"@)),
            _ => Err(invalid("复杂表达式"@, "属性值必须是字符串字面量"@)),
        },
        _ => Err(
            MacroErrorV::ParseError {
                message: "属性格式错误，期望 key = \"value\" 格式"@,
                span: Some(SpanRef::StructAttr(index)),
            },
        ),
    }
}

/// The struct-level values of a Node read so far.
pub ghost struct NodeHeadV {
    pub node_type: Option<Seq<char>>,
    pub desc: Option<Seq<char>>,
    pub marks: Option<Seq<char>>,
    pub content: Option<Seq<char>>,
}

/// Reading the first `n` struct attributes of a Node.
pub open spec fn spec_scan_node_attrs(attrs: Seq<SynAttributeV>, n: nat) -> Result<
    NodeHeadV,
    MacroErrorV,
>
    decreases n,
{
    if n == 0 {
        Ok(NodeHeadV { node_type: None, desc: None, marks: None, content: None })
    } else {
        match spec_scan_node_attrs(attrs, (n - 1) as nat) {
            Err(e) => Err(e),
            Ok(h) => {
                let a = attrs[n - 1];
                let key = a.path_ident;
                let read = spec_parse_string_attribute(a, (n - 1) as usize);
                if key == Some("node_type"@) {
                    match read {
                        Ok(v) => Ok(NodeHeadV { node_type: Some(v), ..h }),
                        Err(e) => Err(e),
                    }
                } else if key == Some("marks"@) {
                    match read {
                        Ok(v) => Ok(NodeHeadV { marks: Some(v), ..h }),
                        Err(e) => Err(e),
                    }
                } else if key == Some("content"@) {
                    match read {
                        Ok(v) => Ok(NodeHeadV { content: Some(v), ..h }),
                        Err(e) => Err(e),
                    }
                } else if key == Some("desc"@) {
                    match read {
                        Ok(v) => Ok(NodeHeadV { desc: Some(v), ..h }),
                        Err(e) => Err(e),
                    }
                } else {
                    Ok(h)
                }
            },
        }
    }
}

/// Reading the first `n` struct attributes of a Mark: the last `mark_type`.
pub open spec fn spec_scan_mark_attrs(attrs: Seq<SynAttributeV>, n: nat) -> Result<
    Option<Seq<char>>,
    MacroErrorV,
>
    decreases n,
{
    if n == 0 {
        Ok(None)
    } else {
        match spec_scan_mark_attrs(attrs, (n - 1) as nat) {
            Err(e) => Err(e),
            Ok(m) => {
                let a = attrs[n - 1];
                if a.path_ident == Some("mark_type"@) {
                    match spec_parse_string_attribute(a, (n - 1) as usize) {
                        Ok(v) => Ok(Some(v)),
                        Err(e) => Err(e),
                    }
                } else {
                    Ok(m)
                }
            },
        }
    }
}

/// The text a default value is read from, taken from the expression.
pub open spec fn spec_extract_value(e: SynExprV) -> Seq<char>
    decreases e,
{
    match e {
        SynExprV::Lit(l) => match l {
            SynLitV::Str(v) => v,
            SynLitV::Int(d) => d,
            SynLitV::Float(d) => d,
            SynLitV::Bool(b) => if b {
                "true"@
            } else {
                "false"@
            },
            SynLitV::Other(t) => t,
        },
        SynExprV::Path { ident, tokens } => match ident {
            Some(i) => i,
            None => tokens,
        },
        SynExprV::Unary { is_neg, expr, tokens } => if is_neg {
            "-"@ + spec_extract_value(*expr)
        } else {
            tokens
        },
        SynExprV::Other { tokens } => {
            let r = spec_remove_spaces(tokens);
            if r.len() > 0 && ((r[0] == '{' && r.last() == '}') || (r[0] == '[' && r.last()
                == ']')) {
                tokens
            } else {
                r
            }
        },
    }
}

/// A parse error pointing at the field with this index.
pub open spec fn field_parse_error(message: Seq<char>, index: usize) -> MacroErrorV {
    MacroErrorV::ParseError { message, span: Some(SpanRef::Field(index)) }
}

/// Reading the first `n` arguments of `#[attr(...)]`: the default value.
pub open spec fn spec_scan_meta_args(metas: Seq<SynNestedMetaV>, index: usize, n: nat) -> Result<
    Option<DefaultValueV>,
    MacroErrorV,
>
    decreases n,
{
    if n == 0 {
        Ok(None)
    } else {
        match spec_scan_meta_args(metas, index, (n - 1) as nat) {
            Err(e) => Err(e),
            Ok(dv) => match metas[n - 1] {
                SynNestedMetaV::NameValue { path_ident, value, float_literal } => match path_ident {
                    Some(id) => if id == "default"@ {
                        if dv is Some {
                            Err(field_parse_error("不能有多个 default 参数"@, index))
                        } else {
                            match spec_parse_default_value(
                                spec_extract_value(value),
                                Some(SpanRef::DefaultValue(index)),
                                float_literal,
                            ) {
                                Ok(d) => Ok(Some(d)),
                                Err(e) => Err(e),
                            }
                        }
                    } else {
                        Err(field_parse_error("不支持的 attr 参数: "@ + id, index))
                    },
                    None => Ok(dv),
                },
                SynNestedMetaV::Other => Err(
                    field_parse_error("attr 参数必须是 name=value 形式，如 default=\"value\""@, index),
                ),
            },
        }
    }
}

/// Reading the arguments of `#[attr(...)]`.
pub open spec fn spec_parse_attr_meta_list(
    list: Result<Seq<SynNestedMetaV>, Seq<char>>,
    index: usize,
) -> Result<Option<DefaultValueV>, MacroErrorV> {
    match list {
        Err(msg) => Err(field_parse_error("无法解析 attr 属性参数: "@ + msg, index)),
        Ok(metas) => spec_scan_meta_args(metas, index, metas.len()),
    }
}

/// Reading the first `n` attributes of a field for `#[attr]`: how many
/// `#[attr]` were seen, whether one was, and the default value.
pub open spec fn spec_scan_field_attr(attrs: Seq<SynAttributeV>, index: usize, n: nat) -> Result<
    (nat, bool, Option<DefaultValueV>),
    MacroErrorV,
>
    decreases n,
{
    if n == 0 {
        Ok((0, false, None))
    } else {
        match spec_scan_field_attr(attrs, index, (n - 1) as nat) {
            Err(e) => Err(e),
            Ok((count, is_attr, dv)) => {
                let a = attrs[n - 1];
                if a.path_ident == Some("attr"@) {
                    if count + 1 > 1 {
                        Err(field_parse_error("字段不能有多个 #[attr] 属性"@, index))
                    } else {
                        match a.meta {
                            SynMetaV::Path => Ok((count + 1, true, dv)),
                            SynMetaV::List(l) => match spec_parse_attr_meta_list(l, index) {
                                Ok(d) => Ok((count + 1, true, d)),
                                Err(e) => Err(e),
                            },
                            SynMetaV::NameValue(_) => Err(
                                field_parse_error(
                                    "不支持 #[attr = \"value\"] 语法，请使用 #[attr(default=\"value\")]"@,
                                    index,
                                ),
                            ),
                        }
                    }
                } else {
                    Ok((count, is_attr, dv))
                }
            },
        }
    }
}

/// Reading a field's `#[attr]`: whether it has one, and its default value.
pub open spec fn spec_parse_field_attr_attribute(f: SynFieldV, index: usize) -> Result<
    (bool, Option<DefaultValueV>),
    MacroErrorV,
> {
    match spec_scan_field_attr(f.attrs, index, f.attrs.len()) {
        Ok((_, is_attr, dv)) => Ok((is_attr, dv)),
        Err(e) => Err(e),
    }
}

/// The configuration of a field with this name and index.
pub open spec fn spec_field_config(
    f: SynFieldV,
    name: Seq<char>,
    index: usize,
    is_attr: bool,
    dv: Option<DefaultValueV>,
) -> FieldConfigV {
    FieldConfigV {
        name,
        type_text: spec_remove_spaces(f.ty.tokens),
        is_optional: spec_is_option_type(f.ty),
        is_attr,
        field: f,
        field_index: index,
        default_value: dv,
    }
}

/// Reading the first `n` named fields for `#[attr]` fields.
pub open spec fn spec_scan_attr_fields(fields: Seq<SynFieldV>, n: nat) -> Result<
    Seq<FieldConfigV>,
    MacroErrorV,
>
    decreases n,
{
    if n == 0 {
        Ok(Seq::empty())
    } else {
        match spec_scan_attr_fields(fields, (n - 1) as nat) {
            Err(e) => Err(e),
            Ok(acc) => {
                let f = fields[n - 1];
                match f.ident {
                    None => Ok(acc),
                    Some(name) => match spec_parse_field_attr_attribute(f, (n - 1) as usize) {
                        Err(e) => Err(e),
                        Ok((is_attr, dv)) => if is_attr {
                            Ok(acc.push(spec_field_config(f, name, (n - 1) as usize, true, dv)))
                        } else {
                            Ok(acc)
                        },
                    },
                }
            },
        }
    }
}

/// The error for a struct body other than named fields.
pub open spec fn spec_body_error(d: SynDataV) -> Option<MacroErrorV> {
    let err = |m: Seq<char>| Some(MacroErrorV::ParseError { message: m, span: Some(SpanRef::Input) });
    match d {
        SynDataV::Struct(SynFieldsV::Unnamed) => err("不支持元组结构体，请使用具名字段的结构体"@),
        SynDataV::Enum => err("不支持枚举类型，请使用结构体"@),
        SynDataV::Union => err("不支持联合体类型，请使用结构体"@),
        _ => None,
    }
}

/// The `#[attr]` fields of the input, in order.
pub open spec fn spec_parse_field_attributes(input: SynDeriveInputV) -> Result<
    Seq<FieldConfigV>,
    MacroErrorV,
> {
    match input.data {
        SynDataV::Struct(SynFieldsV::Named(fs)) => spec_scan_attr_fields(fs, fs.len()),
        SynDataV::Struct(SynFieldsV::Unit) => Ok(Seq::empty()),
        d => Err(spec_body_error(d)->Some_0),
    }
}

/// Counting `#[id]` on the first `n` attributes of a field, which must be
/// bare and single.
pub open spec fn spec_scan_id_attr(attrs: Seq<SynAttributeV>, index: usize, n: nat) -> Result<
    nat,
    MacroErrorV,
>
    decreases n,
{
    if n == 0 {
        Ok(0)
    } else {
        match spec_scan_id_attr(attrs, index, (n - 1) as nat) {
            Err(e) => Err(e),
            Ok(count) => {
                let a = attrs[n - 1];
                if a.path_ident == Some("id"@) {
                    if count + 1 > 1 {
                        Err(field_parse_error("字段不能有多个 #[id] 属性"@, index))
                    } else {
                        match a.meta {
                            SynMetaV::Path => Ok(count + 1),
                            SynMetaV::List(_) => Err(
                                field_parse_error("#[id] 属性不支持参数，请使用简单的 #[id] 格式"@, index),
                            ),
                            SynMetaV::NameValue(_) => Err(
                                field_parse_error("#[id] 属性不支持赋值，请使用简单的 #[id] 格式"@, index),
                            ),
                        }
                    }
                } else {
                    Ok(count)
                }
            },
        }
    }
}

/// Whether a field carries `#[id]`.
pub open spec fn spec_check_id_attribute(f: SynFieldV, index: usize) -> Result<bool, MacroErrorV> {
    match spec_scan_id_attr(f.attrs, index, f.attrs.len()) {
        Ok(count) => Ok(count > 0),
        Err(e) => Err(e),
    }
}

/// Reading the first `n` named fields for the `#[id]` field.
pub open spec fn spec_scan_id_fields(fields: Seq<SynFieldV>, n: nat) -> Result<
    Option<FieldConfigV>,
    MacroErrorV,
>
    decreases n,
{
    if n == 0 {
        Ok(None)
    } else {
        match spec_scan_id_fields(fields, (n - 1) as nat) {
            Err(e) => Err(e),
            Ok(acc) => {
                let f = fields[n - 1];
                match f.ident {
                    None => Ok(acc),
                    Some(name) => match spec_check_id_attribute(f, (n - 1) as usize) {
                        Err(e) => Err(e),
                        Ok(has_id) => if has_id {
                            if acc is Some {
                                Err(field_parse_error("一个结构体只能有一个 #[id] 字段"@, (n - 1) as usize))
                            } else {
                                Ok(Some(spec_field_config(f, name, (n - 1) as usize, false, None)))
                            }
                        } else {
                            Ok(acc)
                        },
                    },
                }
            },
        }
    }
}

/// The `#[id]` field of the input, if any.
pub open spec fn spec_parse_id_field(input: SynDeriveInputV) -> Result<
    Option<FieldConfigV>,
    MacroErrorV,
> {
    match input.data {
        SynDataV::Struct(SynFieldsV::Named(fs)) => spec_scan_id_fields(fs, fs.len()),
        SynDataV::Struct(SynFieldsV::Unit) => Ok(None),
        d => Err(spec_body_error(d)->Some_0),
    }
}

/// The Node configuration read from the input.
pub open spec fn spec_parse_node_attributes(input: SynDeriveInputV) -> Result<NodeConfigV, MacroErrorV> {
    match spec_scan_node_attrs(input.attrs, input.attrs.len()) {
        Err(e) => Err(e),
        Ok(h) => if h.node_type is None {
            Err(MacroErrorV::MissingAttribute { attribute: "node_type"@, span: Some(SpanRef::Input) })
        } else {
            match spec_parse_field_attributes(input) {
                Err(e) => Err(e),
                Ok(fs) => match spec_parse_id_field(input) {
                    Err(e) => Err(e),
                    Ok(idf) => Ok(
                        NodeConfigV {
                            node_type: h.node_type,
                            desc: h.desc,
                            marks: h.marks,
                            content: h.content,
                            attr_fields: fs,
                            id_field: idf,
                        },
                    ),
                },
            }
        },
    }
}

/// The Mark configuration read from the input.
pub open spec fn spec_parse_mark_attributes(input: SynDeriveInputV) -> Result<MarkConfigV, MacroErrorV> {
    match spec_scan_mark_attrs(input.attrs, input.attrs.len()) {
        Err(e) => Err(e),
        Ok(m) => if m is None {
            Err(MacroErrorV::MissingAttribute { attribute: "mark_type"@, span: Some(SpanRef::Input) })
        } else {
            match spec_parse_field_attributes(input) {
                Err(e) => Err(e),
                Ok(fs) => Ok(MarkConfigV { mark_type: m, attr_fields: fs }),
            }
        },
    }
}

pub open spec fn node_result_view(r: MacroResult<NodeConfig>) -> Result<NodeConfigV, MacroErrorV> {
    match r {
        Ok(c) => Ok(c@),
        Err(e) => Err(e@),
    }
}

pub open spec fn mark_result_view(r: MacroResult<MarkConfig>) -> Result<MarkConfigV, MacroErrorV> {
    match r {
        Ok(c) => Ok(c@),
        Err(e) => Err(e@),
    }
}

pub open spec fn string_result_view(r: MacroResult<String>) -> Result<Seq<char>, MacroErrorV> {
    match r {
        Ok(v) => Ok(v@),
        Err(e) => Err(e@),
    }
}

pub open spec fn fields_result_view(r: MacroResult<Vec<FieldConfig>>) -> Result<
    Seq<FieldConfigV>,
    MacroErrorV,
> {
    match r {
        Ok(v) => Ok(field_configs_view(v@)),
        Err(e) => Err(e@),
    }
}

pub open spec fn opt_field_result_view(r: MacroResult<Option<FieldConfig>>) -> Result<
    Option<FieldConfigV>,
    MacroErrorV,
> {
    match r {
        Ok(v) => Ok(opt_field_config_view(v)),
        Err(e) => Err(e@),
    }
}

pub open spec fn attr_result_view(r: MacroResult<(bool, Option<DefaultValue>)>) -> Result<
    (bool, Option<DefaultValueV>),
    MacroErrorV,
> {
    match r {
        Ok((b, d)) => Ok((b, opt_default_view(d))),
        Err(e) => Err(e@),
    }
}

pub open spec fn default_opt_result_view(r: MacroResult<Option<DefaultValue>>) -> Result<
    Option<DefaultValueV>,
    MacroErrorV,
> {
    match r {
        Ok(d) => Ok(opt_default_view(d)),
        Err(e) => Err(e@),
    }
}

pub open spec fn bool_result_view(r: MacroResult<bool>) -> Result<bool, MacroErrorV> {
    match r {
        Ok(b) => Ok(b),
        Err(e) => Err(e@),
    }
}

// ------------------------------------------------------- error propagation

proof fn lemma_node_attrs_err(attrs: Seq<SynAttributeV>, i: nat, n: nat)
    requires
        i <= n,
        spec_scan_node_attrs(attrs, i) is Err,
    ensures
        spec_scan_node_attrs(attrs, n) == spec_scan_node_attrs(attrs, i),
    decreases n,
{
    if n > i {
        lemma_node_attrs_err(attrs, i, (n - 1) as nat);
    }
}

proof fn lemma_mark_attrs_err(attrs: Seq<SynAttributeV>, i: nat, n: nat)
    requires
        i <= n,
        spec_scan_mark_attrs(attrs, i) is Err,
    ensures
        spec_scan_mark_attrs(attrs, n) == spec_scan_mark_attrs(attrs, i),
    decreases n,
{
    if n > i {
        lemma_mark_attrs_err(attrs, i, (n - 1) as nat);
    }
}

proof fn lemma_meta_args_err(metas: Seq<SynNestedMetaV>, index: usize, i: nat, n: nat)
    requires
        i <= n,
        spec_scan_meta_args(metas, index, i) is Err,
    ensures
        spec_scan_meta_args(metas, index, n) == spec_scan_meta_args(metas, index, i),
    decreases n,
{
    if n > i {
        lemma_meta_args_err(metas, index, i, (n - 1) as nat);
    }
}

proof fn lemma_field_attr_err(attrs: Seq<SynAttributeV>, index: usize, i: nat, n: nat)
    requires
        i <= n,
        spec_scan_field_attr(attrs, index, i) is Err,
    ensures
        spec_scan_field_attr(attrs, index, n) == spec_scan_field_attr(attrs, index, i),
    decreases n,
{
    if n > i {
        lemma_field_attr_err(attrs, index, i, (n - 1) as nat);
    }
}

proof fn lemma_attr_fields_err(fields: Seq<SynFieldV>, i: nat, n: nat)
    requires
        i <= n,
        spec_scan_attr_fields(fields, i) is Err,
    ensures
        spec_scan_attr_fields(fields, n) == spec_scan_attr_fields(fields, i),
    decreases n,
{
    if n > i {
        lemma_attr_fields_err(fields, i, (n - 1) as nat);
    }
}

proof fn lemma_id_attr_err(attrs: Seq<SynAttributeV>, index: usize, i: nat, n: nat)
    requires
        i <= n,
        spec_scan_id_attr(attrs, index, i) is Err,
    ensures
        spec_scan_id_attr(attrs, index, n) == spec_scan_id_attr(attrs, index, i),
    decreases n,
{
    if n > i {
        lemma_id_attr_err(attrs, index, i, (n - 1) as nat);
    }
}

proof fn lemma_id_fields_err(fields: Seq<SynFieldV>, i: nat, n: nat)
    requires
        i <= n,
        spec_scan_id_fields(fields, i) is Err,
    ensures
        spec_scan_id_fields(fields, n) == spec_scan_id_fields(fields, i),
    decreases n,
{
    if n > i {
        lemma_id_fields_err(fields, i, (n - 1) as nat);
    }
}

// ------------------------------------------------------------------ code

/// Whether an optional identifier is `name`.
fn ident_is(o: &Option<String>, name: &str) -> (r: bool)
    ensures
        r == (opt_view(*o) == Some(name@)),
{
    match o {
        Some(s) => str_eq(s.as_str(), name),
        None => false,
    }
}

/// The attribute's name, or the empty string.
fn attr_name(attr: &SynAttribute) -> (r: String)
    ensures
        r@ == spec_attr_name(attr@),
{
    match &attr.path_ident {
        Some(i) => i.clone(),
        None => String::new(),
    }
}

/// Reads the attributes of the derive macros.
pub struct AttributeParser;

impl AttributeParser {
    /// Reads the Node configuration: the struct attributes `node_type`
    /// (required), `marks`, `content` and `desc`, the `#[attr]` fields and
    /// the `#[id]` field.
    pub fn parse_node_attributes(input: &SynDeriveInput) -> (r: MacroResult<NodeConfig>)
        ensures
            node_result_view(r) == spec_parse_node_attributes(input@),
    {
        let mut node_type: Option<String> = None;
        let mut desc: Option<String> = None;
        let mut marks: Option<String> = None;
        let mut content: Option<String> = None;
        let ghost attrs = input@.attrs;
        let n = input.attrs.len();
        let mut i: usize = 0;
        while i < n
            invariant
                n == input.attrs@.len(),
                attrs == input@.attrs,
                attrs.len() == n,
                i <= n,
                spec_scan_node_attrs(attrs, i as nat) == Ok::<NodeHeadV, MacroErrorV>(
                    NodeHeadV {
                        node_type: opt_view(node_type),
                        desc: opt_view(desc),
                        marks: opt_view(marks),
                        content: opt_view(content),
                    },
                ),
            decreases n - i,
        {
            let a = &input.attrs[i];
            assert(attrs[i as int] == a@);
            let is_node_type = ident_is(&a.path_ident, "node_type");
            let is_marks = ident_is(&a.path_ident, "marks");
            let is_content = ident_is(&a.path_ident, "content");
            let is_desc = ident_is(&a.path_ident, "desc");
            if is_node_type || is_marks || is_content || is_desc {
                match Self::parse_string_attribute(a, i) {
                    Ok(v) => {
                        if is_node_type {
                            node_type = Some(v);
                        } else if is_marks {
                            marks = Some(v);
                        } else if is_content {
                            content = Some(v);
                        } else {
                            desc = Some(v);
                        }
                    },
                    Err(e) => {
                        proof {
                            lemma_node_attrs_err(attrs, (i + 1) as nat, n as nat);
                        }
                        return Err(e);
                    },
                }
            }
            i = i + 1;
        }
        if node_type.is_none() {
            return Err(MacroError::missing_attribute("node_type", SpanRef::Input));
        }
        let attr_fields = match Self::parse_field_attributes(input) {
            Ok(f) => f,
            Err(e) => return Err(e),
        };
        let id_field = match Self::parse_id_field(input) {
            Ok(f) => f,
            Err(e) => return Err(e),
        };
        Ok(NodeConfig { node_type, desc, marks, content, attr_fields, id_field })
    }

    /// Reads the Mark configuration: the struct attribute `mark_type`
    /// (required) and the `#[attr]` fields.
    pub fn parse_mark_attributes(input: &SynDeriveInput) -> (r: MacroResult<MarkConfig>)
        ensures
            mark_result_view(r) == spec_parse_mark_attributes(input@),
    {
        let mut mark_type: Option<String> = None;
        let ghost attrs = input@.attrs;
        let n = input.attrs.len();
        let mut i: usize = 0;
        while i < n
            invariant
                n == input.attrs@.len(),
                attrs == input@.attrs,
                attrs.len() == n,
                i <= n,
                spec_scan_mark_attrs(attrs, i as nat) == Ok::<Option<Seq<char>>, MacroErrorV>(
                    opt_view(mark_type),
                ),
            decreases n - i,
        {
            let a = &input.attrs[i];
            assert(attrs[i as int] == a@);
            if ident_is(&a.path_ident, "mark_type") {
                match Self::parse_string_attribute(a, i) {
                    Ok(v) => {
                        mark_type = Some(v);
                    },
                    Err(e) => {
                        proof {
                            lemma_mark_attrs_err(attrs, (i + 1) as nat, n as nat);
                        }
                        return Err(e);
                    },
                }
            }
            i = i + 1;
        }
        if mark_type.is_none() {
            return Err(MacroError::missing_attribute("mark_type", SpanRef::Input));
        }
        let attr_fields = match Self::parse_field_attributes(input) {
            Ok(f) => f,
            Err(e) => return Err(e),
        };
        Ok(MarkConfig { mark_type, attr_fields })
    }

    /// Reads `#[key = "value"]` (the struct attribute with this index): the
    /// value must be a non-empty string literal.
    pub fn parse_string_attribute(attr: &SynAttribute, index: usize) -> (r: MacroResult<String>)
        ensures
            string_result_view(r) == spec_parse_string_attribute(attr@, index),
    {
        match &attr.meta {
            SynMeta::NameValue(e) => match e {
                SynExpr::Lit(SynLit::Str(v)) => {
                    if v.unicode_len() == 0 {
                        Err(
                            MacroError::invalid_attribute_value(
                                attr_name(attr).as_str(),
                                v.as_str(),
                                "属性值不能为空字符串",
                                SpanRef::StructAttr(index),
                            ),
                        )
                    } else {
                        Ok(v.clone())
                    }
                },
                SynExpr::Lit(_) => Err(
                    MacroError::invalid_attribute_value(
                        attr_name(attr).as_str(),
                        "非字符串值",
                        "属性值必须是字符串字面量",
                        SpanRef::StructAttr(index),
                    ),
                ),
                _ => Err(
                    MacroError::invalid_attribute_value(
                        attr_name(attr).as_str(),
                        "复杂表达式",
                        "属性值必须是字符串字面量",
                        SpanRef::StructAttr(index),
                    ),
                ),
            },
            _ => Err(
                MacroError::parse_error(
                    "属性格式错误，期望 key = \"value\" 格式",
                    SpanRef::StructAttr(index),
                ),
            ),
        }
    }

    /// Splits a space-separated list into its words.
    pub fn parse_space_separated_list(input: &str) -> (r: Vec<String>)
        ensures
            strings_view(r@) == spec_words(input@),
    {
        split_whitespace(input)
    }

    /// Reads a field's `#[attr]` (the named field with this index): whether
    /// it has one, and the default value given in `#[attr(default = ..)]`.
    pub fn parse_field_attr_attribute(field: &SynField, index: usize) -> (r: MacroResult<
        (bool, Option<DefaultValue>),
    >)
        ensures
            attr_result_view(r) == spec_parse_field_attr_attribute(field@, index),
    {
        let ghost attrs = field@.attrs;
        let n = field.attrs.len();
        let mut count: usize = 0;
        let mut is_attr = false;
        let mut default_value: Option<DefaultValue> = None;
        let mut i: usize = 0;
        while i < n
            invariant
                n == field.attrs@.len(),
                attrs == field@.attrs,
                attrs.len() == n,
                i <= n,
                count <= 1,
                spec_scan_field_attr(attrs, index, i as nat) == Ok::<
                    (nat, bool, Option<DefaultValueV>),
                    MacroErrorV,
                >((count as nat, is_attr, opt_default_view(default_value))),
            decreases n - i,
        {
            let a = &field.attrs[i];
            assert(attrs[i as int] == a@);
            if ident_is(&a.path_ident, "attr") {
                if count >= 1 {
                    proof {
                        lemma_field_attr_err(attrs, index, (i + 1) as nat, n as nat);
                    }
                    return Err(MacroError::parse_error("字段不能有多个 #[attr] 属性", SpanRef::Field(index)));
                }
                match &a.meta {
                    SynMeta::Path => {},
                    SynMeta::List(l) => {
                        match Self::parse_attr_meta_list(l, index) {
                            Ok(d) => {
                                default_value = d;
                            },
                            Err(e) => {
                                proof {
                                    lemma_field_attr_err(attrs, index, (i + 1) as nat, n as nat);
                                }
                                return Err(e);
                            },
                        }
                    },
                    SynMeta::NameValue(_) => {
                        proof {
                            lemma_field_attr_err(attrs, index, (i + 1) as nat, n as nat);
                        }
                        return Err(
                            MacroError::parse_error(
                                "不支持 #[attr = \"value\"] 语法，请使用 #[attr(default=\"value\")]",
                                SpanRef::Field(index),
                            ),
                        );
                    },
                }
                count = count + 1;
                is_attr = true;
            }
            i = i + 1;
        }
        Ok((is_attr, default_value))
    }

    /// Reads the arguments of `#[attr(...)]` on the named field with this
    /// index: at most one `default = value`, and no other argument.
    pub fn parse_attr_meta_list(list: &Result<Vec<SynNestedMeta>, String>, index: usize) -> (r:
        MacroResult<Option<DefaultValue>>)
        ensures
            default_opt_result_view(r) == spec_parse_attr_meta_list(meta_list_view(*list), index),
    {
        let metas = match list {
            Err(msg) => {
                return Err(
                    MacroError::parse_error(
                        concat("无法解析 attr 属性参数: ", msg.as_str()).as_str(),
                        SpanRef::Field(index),
                    ),
                );
            },
            Ok(metas) => metas,
        };
        let ghost mv = metas@.map_values(|n: SynNestedMeta| nested_meta_view(n));
        let n = metas.len();
        let mut default_value: Option<DefaultValue> = None;
        let mut i: usize = 0;
        while i < n
            invariant
                n == metas@.len(),
                meta_list_view(*list) == Ok::<Seq<SynNestedMetaV>, Seq<char>>(mv),
                mv == metas@.map_values(|n: SynNestedMeta| nested_meta_view(n)),
                i <= n,
                spec_scan_meta_args(mv, index, i as nat) == Ok::<Option<DefaultValueV>, MacroErrorV>(
                    opt_default_view(default_value),
                ),
            decreases n - i,
        {
            let m = &metas[i];
            assert(mv[i as int] == nested_meta_view(*m));
            match m {
                SynNestedMeta::NameValue { path_ident, value, float_literal } => {
                    match path_ident {
                        Some(id) => {
                            if str_eq(id.as_str(), "default") {
                                if default_value.is_some() {
                                    proof {
                                        lemma_meta_args_err(mv, index, (i + 1) as nat, n as nat);
                                    }
                                    return Err(
                                        MacroError::parse_error("不能有多个 default 参数", SpanRef::Field(index)),
                                    );
                                }
                                let text = Self::extract_value_from_expr(value);
                                match DefaultValueParser::parse(
                                    text.as_str(),
                                    Some(SpanRef::DefaultValue(index)),
                                    duplicate_opt(float_literal),
                                ) {
                                    Ok(d) => {
                                        default_value = Some(d);
                                    },
                                    Err(e) => {
                                        proof {
                                            lemma_meta_args_err(mv, index, (i + 1) as nat, n as nat);
                                        }
                                        return Err(e);
                                    },
                                }
                            } else {
                                proof {
                                    lemma_meta_args_err(mv, index, (i + 1) as nat, n as nat);
                                }
                                return Err(
                                    MacroError::parse_error(
                                        concat("不支持的 attr 参数: ", id.as_str()).as_str(),
                                        SpanRef::Field(index),
                                    ),
                                );
                            }
                        },
                        None => {},
                    }
                },
                SynNestedMeta::Other => {
                    proof {
                        lemma_meta_args_err(mv, index, (i + 1) as nat, n as nat);
                    }
                    return Err(
                        MacroError::parse_error(
                            "attr 参数必须是 name=value 形式，如 default=\"value\"",
                            SpanRef::Field(index),
                        ),
                    );
                },
            }
            i = i + 1;
        }
        Ok(default_value)
    }

    /// The text a default value is read from: a literal's value or digits, a
    /// path's identifier, `-` before a negated operand, and otherwise the
    /// token text with spaces removed (kept as written when it is braced or
    /// bracketed, as JSON is).
    pub fn extract_value_from_expr(expr: &SynExpr) -> (r: String)
        ensures
            r@ == spec_extract_value(expr@),
        decreases expr,
    {
        match expr {
            SynExpr::Lit(l) => match l {
                SynLit::Str(v) => v.clone(),
                SynLit::Int(d) => d.clone(),
                SynLit::Float(d) => d.clone(),
                SynLit::Bool(b) => if *b {
                    String::from_str("true")
                } else {
                    String::from_str("false")
                },
                SynLit::Other(t) => t.clone(),
            },
            SynExpr::Path { ident, tokens } => match ident {
                Some(i) => i.clone(),
                None => tokens.clone(),
            },
            SynExpr::Unary { is_neg, expr: inner, tokens } => {
                if *is_neg {
                    let v = Self::extract_value_from_expr(inner);
                    concat("-", v.as_str())
                } else {
                    tokens.clone()
                }
            },
            SynExpr::Other { tokens } => {
                let r = remove_spaces(tokens.as_str());
                let k = r.as_str().unicode_len();
                if k > 0 {
                    let first = r.as_str().get_char(0);
                    let last = r.as_str().get_char(k - 1);
                    if (first == '{' && last == '}') || (first == '[' && last == ']') {
                        return tokens.clone();
                    }
                }
                r
            },
        }
    }

    /// The error for a struct body that is not a struct with named fields.
    fn body_error(data: &SynData) -> (r: MacroError)
        requires
            spec_body_error(data_view(*data)) is Some,
        ensures
            r@ == spec_body_error(data_view(*data))->Some_0,
    {
        match data {
            SynData::Enum => MacroError::parse_error("不支持枚举类型，请使用结构体", SpanRef::Input),
            SynData::Union => MacroError::parse_error("不支持联合体类型，请使用结构体", SpanRef::Input),
            _ => MacroError::parse_error("不支持元组结构体，请使用具名字段的结构体", SpanRef::Input),
        }
    }

    /// The configuration of a field.
    fn field_config(
        field: &SynField,
        name: &String,
        index: usize,
        is_attr: bool,
        default_value: Option<DefaultValue>,
    ) -> (r: FieldConfig)
        requires
            field@.ident == Some(name@),
        ensures
            r@ == spec_field_config(field@, name@, index, is_attr, opt_default_view(default_value)),
    {
        FieldConfig {
            name: name.clone(),
            type_text: remove_spaces(field.ty.tokens.as_str()),
            is_optional: is_option_type(&field.ty),
            is_attr,
            field: field.duplicate(),
            field_index: index,
            default_value,
        }
    }

    /// The fields marked `#[attr]`, in order.
    pub fn parse_field_attributes(input: &SynDeriveInput) -> (r: MacroResult<Vec<FieldConfig>>)
        ensures
            fields_result_view(r) == spec_parse_field_attributes(input@),
    {
        let fields = match &input.data {
            SynData::Struct(SynFields::Named(fs)) => fs,
            SynData::Struct(SynFields::Unit) => {
                let v: Vec<FieldConfig> = Vec::new();
                assert(field_configs_view(v@) =~= Seq::empty());
                return Ok(v);
            },
            _ => return Err(Self::body_error(&input.data)),
        };
        let ghost fv = fields_view(fields@);
        let n = fields.len();
        let mut out: Vec<FieldConfig> = Vec::new();
        let mut i: usize = 0;
        assert(field_configs_view(out@) =~= Seq::empty());
        while i < n
            invariant
                n == fields@.len(),
                fv == fields_view(fields@),
                input@.data == SynDataV::Struct(SynFieldsV::Named(fv)),
                i <= n,
                spec_scan_attr_fields(fv, i as nat) == Ok::<Seq<FieldConfigV>, MacroErrorV>(
                    field_configs_view(out@),
                ),
            decreases n - i,
        {
            let f = &fields[i];
            assert(fv[i as int] == f@);
            match &f.ident {
                None => {},
                Some(name) => {
                    match Self::parse_field_attr_attribute(f, i) {
                        Err(e) => {
                            proof {
                                lemma_attr_fields_err(fv, (i + 1) as nat, n as nat);
                            }
                            return Err(e);
                        },
                        Ok((is_attr, dv)) => {
                            if is_attr {
                                let c = Self::field_config(f, name, i, true, dv);
                                let ghost old_out = out@;
                                out.push(c);
                                assert(field_configs_view(out@) =~= field_configs_view(old_out).push(
                                    c@,
                                ));
                            }
                        },
                    }
                },
            }
            i = i + 1;
        }
        Ok(out)
    }

    /// The field marked `#[id]`, if any; at most one field may carry it.
    pub fn parse_id_field(input: &SynDeriveInput) -> (r: MacroResult<Option<FieldConfig>>)
        ensures
            opt_field_result_view(r) == spec_parse_id_field(input@),
    {
        let fields = match &input.data {
            SynData::Struct(SynFields::Named(fs)) => fs,
            SynData::Struct(SynFields::Unit) => return Ok(None),
            _ => return Err(Self::body_error(&input.data)),
        };
        let ghost fv = fields_view(fields@);
        let n = fields.len();
        let mut id_field: Option<FieldConfig> = None;
        let mut i: usize = 0;
        while i < n
            invariant
                n == fields@.len(),
                fv == fields_view(fields@),
                input@.data == SynDataV::Struct(SynFieldsV::Named(fv)),
                i <= n,
                spec_scan_id_fields(fv, i as nat) == Ok::<Option<FieldConfigV>, MacroErrorV>(
                    opt_field_config_view(id_field),
                ),
            decreases n - i,
        {
            let f = &fields[i];
            assert(fv[i as int] == f@);
            match &f.ident {
                None => {},
                Some(name) => {
                    match Self::check_id_attribute(f, i) {
                        Err(e) => {
                            proof {
                                lemma_id_fields_err(fv, (i + 1) as nat, n as nat);
                            }
                            return Err(e);
                        },
                        Ok(has_id) => {
                            if has_id {
                                if id_field.is_some() {
                                    proof {
                                        lemma_id_fields_err(fv, (i + 1) as nat, n as nat);
                                    }
                                    return Err(
                                        MacroError::parse_error(
                                            "一个结构体只能有一个 #[id] 字段",
                                            SpanRef::Field(i),
                                        ),
                                    );
                                }
                                id_field = Some(Self::field_config(f, name, i, false, None));
                            }
                        },
                    }
                },
            }
            i = i + 1;
        }
        Ok(id_field)
    }

    /// Whether the named field with this index carries `#[id]`, which must
    /// be bare and single.
    pub fn check_id_attribute(field: &SynField, index: usize) -> (r: MacroResult<bool>)
        ensures
            bool_result_view(r) == spec_check_id_attribute(field@, index),
    {
        let ghost attrs = field@.attrs;
        let n = field.attrs.len();
        let mut count: usize = 0;
        let mut i: usize = 0;
        while i < n
            invariant
                n == field.attrs@.len(),
                attrs == field@.attrs,
                attrs.len() == n,
                i <= n,
                count <= 1,
                spec_scan_id_attr(attrs, index, i as nat) == Ok::<nat, MacroErrorV>(count as nat),
            decreases n - i,
        {
            let a = &field.attrs[i];
            assert(attrs[i as int] == a@);
            if ident_is(&a.path_ident, "id") {
                if count >= 1 {
                    proof {
                        lemma_id_attr_err(attrs, index, (i + 1) as nat, n as nat);
                    }
                    return Err(MacroError::parse_error("字段不能有多个 #[id] 属性", SpanRef::Field(index)));
                }
                match &a.meta {
                    SynMeta::Path => {},
                    SynMeta::List(_) => {
                        proof {
                            lemma_id_attr_err(attrs, index, (i + 1) as nat, n as nat);
                        }
                        return Err(
                            MacroError::parse_error(
                                "#[id] 属性不支持参数，请使用简单的 #[id] 格式",
                                SpanRef::Field(index),
                            ),
                        );
                    },
                    SynMeta::NameValue(_) => {
                        proof {
                            lemma_id_attr_err(attrs, index, (i + 1) as nat, n as nat);
                        }
                        return Err(
                            MacroError::parse_error(
                                "#[id] 属性不支持赋值，请使用简单的 #[id] 格式",
                                SpanRef::Field(index),
                            ),
                        );
                    },
                }
                count = count + 1;
            }
            i = i + 1;
        }
        Ok(count > 0)
    }
}

// ------------------------------------------------------------ validation

/// The first of `words[0..n]` that is not a valid identifier.
pub open spec fn spec_first_invalid_word(words: Seq<Seq<char>>, n: nat) -> Option<Seq<char>>
    decreases n,
{
    if n == 0 {
        None
    } else {
        match spec_first_invalid_word(words, (n - 1) as nat) {
            Some(w) => Some(w),
            None => if spec_is_valid_identifier(words[n - 1]) {
                None
            } else {
                Some(words[n - 1])
            },
        }
    }
}

proof fn lemma_first_invalid_stays(words: Seq<Seq<char>>, i: nat, n: nat)
    requires
        i <= n,
        spec_first_invalid_word(words, i) is Some,
    ensures
        spec_first_invalid_word(words, n) == spec_first_invalid_word(words, i),
    decreases n,
{
    if n > i {
        lemma_first_invalid_stays(words, i, (n - 1) as nat);
    }
}

/// A validation error without a place.
pub open spec fn spec_validation_error(message: Seq<char>) -> MacroErrorV {
    MacroErrorV::ValidationError { message, span: None }
}

/// Checking a Node configuration: `node_type` is present, and `marks`, when
/// present, is not blank and lists only valid identifiers.
pub open spec fn spec_node_config_validate(c: NodeConfigV) -> Result<(), MacroErrorV> {
    if c.node_type is None {
        Err(spec_validation_error("缺少必需的 node_type 属性"@))
    } else {
        match c.marks {
            None => Ok(()),
            Some(m) => if spec_all_whitespace(m) {
                Err(spec_validation_error("marks 属性不能为空字符串"@))
            } else {
                let words = spec_words(m);
                match spec_first_invalid_word(words, words.len()) {
                    Some(w) => Err(spec_validation_error("无效的标记名称: '"@ + w + "'"@)),
                    None => Ok(()),
                }
            },
        }
    }
}

/// Checking a Mark configuration: `mark_type` is present and a valid
/// identifier.
pub open spec fn spec_mark_config_validate(c: MarkConfigV) -> Result<(), MacroErrorV> {
    match c.mark_type {
        None => Err(spec_validation_error("缺少必需的 mark_type 属性"@)),
        Some(t) => if spec_is_valid_identifier(t) {
            Ok(())
        } else {
            Err(spec_validation_error("无效的标记类型名称: '"@ + t + "'"@))
        },
    }
}

/// A validation error without a place.
fn validation_error_here(message: String) -> (r: MacroError)
    ensures
        r@ == spec_validation_error(message@),
{
    MacroError::ValidationError { message, span: None }
}

impl NodeConfig {
    /// Checks that `node_type` is present and that `marks`, when present, is
    /// not blank and lists only valid identifiers.
    pub fn validate(&self) -> (r: MacroResult<()>)
        ensures
            unit_result_view(r) == spec_node_config_validate(self@),
    {
        if self.node_type.is_none() {
            return Err(validation_error_here(String::from_str("缺少必需的 node_type 属性")));
        }
        if let Some(marks) = &self.marks {
            if is_blank(marks.as_str()) {
                return Err(validation_error_here(String::from_str("marks 属性不能为空字符串")));
            }
            let words = split_whitespace(marks.as_str());
            let ghost wv = strings_view(words@);
            let n = words.len();
            let mut i: usize = 0;
            while i < n
                invariant
                    n == words@.len(),
                    wv == strings_view(words@),
                    wv == spec_words(marks@),
                    self.node_type is Some,
                    opt_view(self.marks) == Some(marks@),
                    !spec_all_whitespace(marks@),
                    wv.len() == n,
                    i <= n,
                    spec_first_invalid_word(wv, i as nat) is None,
                decreases n - i,
            {
                let w = words[i].as_str();
                assert(wv[i as int] == w@);
                if !is_valid_identifier(w) {
                    proof {
                        lemma_first_invalid_stays(wv, (i + 1) as nat, n as nat);
                    }
                    return Err(validation_error_here(concat3("无效的标记名称: '", w, "'")));
                }
                i = i + 1;
            }
        }
        Ok(())
    }

    /// The `marks` text as written.
    pub fn marks_string(&self) -> (r: Option<String>)
        ensures
            opt_view(r) == opt_view(self.marks),
    {
        duplicate_opt(&self.marks)
    }
}

impl MarkConfig {
    /// Checks that `mark_type` is present and a valid identifier.
    pub fn validate(&self) -> (r: MacroResult<()>)
        ensures
            unit_result_view(r) == spec_mark_config_validate(self@),
    {
        match &self.mark_type {
            None => Err(validation_error_here(String::from_str("缺少必需的 mark_type 属性"))),
            Some(t) => {
                if is_valid_identifier(t.as_str()) {
                    Ok(())
                } else {
                    Err(validation_error_here(concat3("无效的标记类型名称: '", t.as_str(), "'")))
                }
            },
        }
    }
}

impl FieldConfig {
    /// A field configuration without a default value.
    pub fn new(
        name: String,
        type_text: String,
        is_optional: bool,
        is_attr: bool,
        field: SynField,
        field_index: usize,
    ) -> (r: Self)
        ensures
            r@ == (FieldConfigV {
                name: name@,
                type_text: type_text@,
                is_optional,
                is_attr,
                field: field@,
                field_index,
                default_value: None,
            }),
    {
        FieldConfig { name, type_text, is_optional, is_attr, field, field_index, default_value: None }
    }

    /// The same configuration with this default value.
    pub fn with_default_value(self, default_value: DefaultValue) -> (r: Self)
        ensures
            r@ == (FieldConfigV { default_value: Some(default_value@), ..self@ }),
    {
        let mut c = self;
        c.default_value = Some(default_value);
        c
    }

    /// Whether a default value is set.
    pub fn has_default_value(&self) -> (r: bool)
        ensures
            r == self.default_value is Some,
    {
        self.default_value.is_some()
    }

    /// The default value, if set.
    pub fn get_default_value(&self) -> (r: Option<&DefaultValue>)
        ensures
            match r {
                Some(d) => self.default_value == Some(*d),
                None => self.default_value is None,
            },
    {
        self.default_value.as_ref()
    }

    /// The default value, if set, for changing in place.
    pub fn get_default_value_mut(&mut self) -> (r: Option<&mut DefaultValue>)
        ensures
            match old(self).default_value {
                None => r is None && *final(self) == *old(self),
                Some(d) => r is Some && *r->Some_0 == d && final(self)@ == (FieldConfigV {
                    default_value: Some(final(r->Some_0)@),
                    ..old(self)@
                }),
            },
    {
        self.default_value.as_mut()
    }

    /// Sets or clears the default value.
    pub fn set_default_value(&mut self, default_value: Option<DefaultValue>)
        ensures
            final(self)@ == (FieldConfigV {
                default_value: opt_default_view(default_value),
                ..old(self)@
            }),
    {
        self.default_value = default_value;
    }
}

} // verus!
