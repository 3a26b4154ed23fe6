//! Checks of configurations and field analyses against the validation
//! limits: identifier shapes, lengths, counts, duplicates and the bracket
//! structure of content expressions. Every check reports the first problem
//! met, in the order the checks are listed.

use vstd::prelude::*;
use vstd::string::*;
use vstd::utf8::encode_utf8;
use crate::common::constants::validation::{
    MAX_ATTRIBUTE_VALUE_LENGTH, MAX_FIELD_ATTRIBUTES, MAX_IDENTIFIER_LENGTH, MAX_MARKS_COUNT,
    MIN_IDENTIFIER_LENGTH,
};
use crate::common::error::{MacroError, MacroErrorV, MacroResult, unit_result_view};
use crate::common::utils::{
    is_supported_type, is_valid_identifier, spec_is_supported_type, spec_is_valid_identifier,
};
use crate::parser::attribute_parser::{
    FieldConfig, FieldConfigV, MarkConfig, MarkConfigV, NodeConfig, NodeConfigV,
    field_configs_view, spec_first_invalid_word, spec_mark_config_validate,
    spec_node_config_validate, spec_validation_error,
};
use crate::parser::field_analyzer::{FieldAnalysis, FieldAnalysisV, analyses_view};
use crate::syntax::{SpanRef, opt_view};
use crate::text::{
    concat3, contains_char, is_blank, push_char, spec_all_whitespace, spec_decimal, spec_words,
    split_whitespace, str_eq, strings_view, usize_to_decimal,
};

verus! {

broadcast use vstd::std_specs::vec::group_vec_axioms;

/// The length of a string in bytes (`str::len`).
pub open spec fn spec_byte_len(s: Seq<char>) -> nat {
    encode_utf8(s).len()
}

/// The length of the string's UTF-8 encoding in bytes.
fn byte_len(s: &str) -> (r: usize)
    ensures
        r == spec_byte_len(s@),
{
    s.as_bytes().len()
}

pub open spec fn dec(n: nat) -> Seq<char> {
    spec_decimal(n)
}

// ------------------------------------------------------------------ specs

/// Checking a `node_type` or `mark_type` value (`kind` names which): its
/// length in bytes within the identifier limits, and its shape.
pub open spec fn spec_check_type_value(kind: Seq<char>, t: Seq<char>) -> Result<(), MacroErrorV> {
    if spec_byte_len(t) < MIN_IDENTIFIER_LENGTH {
        Err(
            spec_validation_error(
                kind + " '"@ + t + "' 太短，最少需要 "@ + dec(MIN_IDENTIFIER_LENGTH as nat) + " 个字符"@,
            ),
        )
    } else if spec_byte_len(t) > MAX_IDENTIFIER_LENGTH {
        Err(
            spec_validation_error(
                kind + " '"@ + t + "' 太长，最多允许 "@ + dec(MAX_IDENTIFIER_LENGTH as nat) + " 个字符"@,
            ),
        )
    } else if !spec_is_valid_identifier(t) {
        Err(spec_validation_error(kind + " '"@ + t + "' 不是有效的标识符格式"@))
    } else {
        Ok(())
    }
}

/// Checking the mark at this position of the list.
pub open spec fn spec_check_mark(mark: Seq<char>, index: nat) -> Option<MacroErrorV> {
    if !spec_is_valid_identifier(mark) {
        Some(
            spec_validation_error(
                "marks 列表中第 "@ + dec(index + 1) + " 个标记 '"@ + mark + "' 不是有效的标识符格式"@,
            ),
        )
    } else if spec_byte_len(mark) > MAX_IDENTIFIER_LENGTH {
        Some(
            spec_validation_error(
                "marks 列表中的标记 '"@ + mark + "' 太长，最多允许 "@ + dec(MAX_IDENTIFIER_LENGTH as nat)
                    + " 个字符"@,
            ),
        )
    } else {
        None
    }
}

/// The first problem among the first `n` marks.
pub open spec fn spec_scan_marks(marks: Seq<Seq<char>>, n: nat) -> Option<MacroErrorV>
    decreases n,
{
    if n == 0 {
        None
    } else {
        match spec_scan_marks(marks, (n - 1) as nat) {
            Some(e) => Some(e),
            None => spec_check_mark(marks[n - 1], (n - 1) as nat),
        }
    }
}

/// The position of the first of the first `n` items that repeats an
/// earlier one.
pub open spec fn spec_first_repeat(items: Seq<Seq<char>>, n: nat) -> Option<int>
    decreases n,
{
    if n == 0 {
        None
    } else {
        match spec_first_repeat(items, (n - 1) as nat) {
            Some(j) => Some(j),
            None => if items.take(n - 1).contains(items[n - 1]) {
                Some(n - 1)
            } else {
                None
            },
        }
    }
}

/// Checking `marks`: not blank, at most `MAX_MARKS_COUNT` words, each a
/// valid identifier within the length limit, no word twice.
pub open spec fn spec_validate_marks_config(marks: Option<Seq<char>>) -> Result<(), MacroErrorV> {
    match marks {
        None => Ok(()),
        Some(m) => if spec_all_whitespace(m) {
            Err(spec_validation_error("marks 列表不能为空，如果不需要标记请移除 marks 属性"@))
        } else {
            let w = spec_words(m);
            if w.len() > MAX_MARKS_COUNT {
                Err(
                    spec_validation_error(
                        "marks 列表太长，最多允许 "@ + dec(MAX_MARKS_COUNT as nat) + " 个标记，当前有 "@
                            + dec(w.len()) + " 个"@,
                    ),
                )
            } else {
                match spec_scan_marks(w, w.len()) {
                    Some(e) => Err(e),
                    None => match spec_first_repeat(w, w.len()) {
                        Some(j) => Err(
                            spec_validation_error("marks 列表中存在重复的标记: '"@ + w[j] + "'"@),
                        ),
                        None => Ok(()),
                    },
                }
            }
        },
    }
}

/// The characters a content expression may not hold, in the order checked.
pub open spec fn spec_forbidden_chars() -> Seq<char> {
    seq!['<', '>', '"', '\'', '\\']
}

/// The first of the first `k` forbidden characters that occurs in `s`.
pub open spec fn spec_first_forbidden(s: Seq<char>, k: nat) -> Option<char>
    decreases k,
{
    if k == 0 {
        None
    } else {
        match spec_first_forbidden(s, (k - 1) as nat) {
            Some(c) => Some(c),
            None => if s.contains(spec_forbidden_chars()[k - 1]) {
                Some(spec_forbidden_chars()[k - 1])
            } else {
                None
            },
        }
    }
}

/// The open parentheses, brackets and braces after the first `n`
/// characters, or the message for the first closer without an opener.
pub open spec fn spec_bracket_scan(s: Seq<char>, n: nat) -> Result<(int, int, int), Seq<char>>
    decreases n,
{
    if n == 0 {
        Ok((0, 0, 0))
    } else {
        match spec_bracket_scan(s, (n - 1) as nat) {
            Err(m) => Err(m),
            Ok((p, b, c)) => {
                let ch = s[n - 1];
                if ch == '(' {
                    Ok((p + 1, b, c))
                } else if ch == ')' {
                    if p - 1 < 0 {
                        Err("content 表达式中的括号不匹配"@)
                    } else {
                        Ok((p - 1, b, c))
                    }
                } else if ch == '[' {
                    Ok((p, b + 1, c))
                } else if ch == ']' {
                    if b - 1 < 0 {
                        Err("content 表达式中的方括号不匹配"@)
                    } else {
                        Ok((p, b - 1, c))
                    }
                } else if ch == '{' {
                    Ok((p, b, c + 1))
                } else if ch == '}' {
                    if c - 1 < 0 {
                        Err("content 表达式中的花括号不匹配"@)
                    } else {
                        Ok((p, b, c - 1))
                    }
                } else {
                    Ok((p, b, c))
                }
            },
        }
    }
}

/// Checking the form of a content expression: no forbidden character, and
/// parentheses, brackets and braces that close in order.
pub open spec fn spec_validate_content_expression_syntax(s: Seq<char>) -> Result<(), MacroErrorV> {
    match spec_first_forbidden(s, 5) {
        Some(c) => Err(spec_validation_error("content 表达式包含不允许的字符 '"@ + seq![c] + "'"@)),
        None => match spec_bracket_scan(s, s.len()) {
            Err(m) => Err(spec_validation_error(m)),
            Ok((p, b, c)) => if p != 0 || b != 0 || c != 0 {
                Err(spec_validation_error("content 表达式中存在未闭合的括号"@))
            } else {
                Ok(())
            },
        },
    }
}

/// Checking `content`: not blank, within the length limit, well formed.
pub open spec fn spec_validate_content_config(content: Option<Seq<char>>) -> Result<(), MacroErrorV> {
    match content {
        None => Ok(()),
        Some(t) => if spec_all_whitespace(t) {
            Err(
                spec_validation_error(
                    "content 表达式不能为空，如果不需要内容约束请移除 content 属性"@,
                ),
            )
        } else if spec_byte_len(t) > MAX_ATTRIBUTE_VALUE_LENGTH {
            Err(
                spec_validation_error(
                    "content 表达式太长，最多允许 "@ + dec(MAX_ATTRIBUTE_VALUE_LENGTH as nat)
                        + " 个字符，当前有 "@ + dec(spec_byte_len(t)) + " 个"@,
                ),
            )
        } else {
            spec_validate_content_expression_syntax(t)
        },
    }
}

/// Checking a field name: not blank, a valid identifier, within the length
/// limit.
pub open spec fn spec_validate_field_name(name: Seq<char>) -> Result<(), MacroErrorV> {
    if spec_all_whitespace(name) {
        Err(spec_validation_error("字段名称不能为空"@))
    } else if !spec_is_valid_identifier(name) {
        Err(spec_validation_error("字段名称 '"@ + name + "' 不是有效的标识符格式"@))
    } else if spec_byte_len(name) > MAX_IDENTIFIER_LENGTH {
        Err(
            spec_validation_error(
                "字段名称 '"@ + name + "' 太长，最多允许 "@ + dec(MAX_IDENTIFIER_LENGTH as nat) + " 个字符"@,
            ),
        )
    } else {
        Ok(())
    }
}

/// Checking a field configuration: its name, a non-blank type, and, for an
/// `#[attr]` field, a supported type.
pub open spec fn spec_validate_field_config(fc: FieldConfigV) -> Result<(), MacroErrorV> {
    match spec_validate_field_name(fc.name) {
        Err(e) => Err(e),
        Ok(()) => if spec_all_whitespace(fc.type_text) {
            Err(spec_validation_error("字段 '"@ + fc.name + "' 的类型名称为空"@))
        } else if fc.is_attr && !spec_is_supported_type(fc.field.ty) {
            Err(
                MacroErrorV::UnsupportedFieldType {
                    field_name: fc.name,
                    field_type: fc.type_text,
                    span: Some(SpanRef::FieldType(fc.field_index)),
                },
            )
        } else {
            Ok(())
        },
    }
}

/// The first problem among the first `n` field configurations.
pub open spec fn spec_scan_field_configs(fcs: Seq<FieldConfigV>, n: nat) -> Result<(), MacroErrorV>
    decreases n,
{
    if n == 0 {
        Ok(())
    } else {
        match spec_scan_field_configs(fcs, (n - 1) as nat) {
            Err(e) => Err(e),
            Ok(()) => spec_validate_field_config(fcs[n - 1]),
        }
    }
}

/// The names of field configurations.
pub open spec fn config_names(fcs: Seq<FieldConfigV>) -> Seq<Seq<char>> {
    fcs.map_values(|f: FieldConfigV| f.name)
}

/// Checking that no two field configurations share a name.
pub open spec fn spec_validate_no_duplicate_field_names(fcs: Seq<FieldConfigV>) -> Result<
    (),
    MacroErrorV,
> {
    match spec_first_repeat(config_names(fcs), fcs.len()) {
        Some(j) => Err(
            MacroErrorV::ValidationError {
                message: "存在重复的字段名称: '"@ + fcs[j].name + "'"@,
                span: Some(SpanRef::Field(fcs[j].field_index)),
            },
        ),
        None => Ok(()),
    }
}

/// Checking the `#[attr]` fields of a configuration: at most
/// `MAX_FIELD_ATTRIBUTES`, each valid, no name twice.
pub open spec fn spec_validate_field_configs(fcs: Seq<FieldConfigV>) -> Result<(), MacroErrorV> {
    if fcs.len() > MAX_FIELD_ATTRIBUTES {
        Err(
            spec_validation_error(
                "属性字段太多，最多允许 "@ + dec(MAX_FIELD_ATTRIBUTES as nat) + " 个，当前有 "@ + dec(
                    fcs.len(),
                ) + " 个"@,
            ),
        )
    } else {
        match spec_scan_field_configs(fcs, fcs.len()) {
            Err(e) => Err(e),
            Ok(()) => spec_validate_no_duplicate_field_names(fcs),
        }
    }
}

/// The full check of a Node configuration.
pub open spec fn spec_validate_node_config(c: NodeConfigV) -> Result<(), MacroErrorV> {
    match c.node_type {
        None => Err(spec_validation_error("缺少必需的 node_type 属性"@)),
        Some(t) => match spec_check_type_value("node_type"@, t) {
            Err(e) => Err(e),
            Ok(()) => match spec_validate_marks_config(c.marks) {
                Err(e) => Err(e),
                Ok(()) => match spec_validate_content_config(c.content) {
                    Err(e) => Err(e),
                    Ok(()) => spec_validate_field_configs(c.attr_fields),
                },
            },
        },
    }
}

/// The full check of a Mark configuration.
pub open spec fn spec_validate_mark_config(c: MarkConfigV) -> Result<(), MacroErrorV> {
    match c.mark_type {
        None => Err(spec_validation_error("缺少必需的 mark_type 属性"@)),
        Some(t) => match spec_check_type_value("mark_type"@, t) {
            Err(e) => Err(e),
            Ok(()) => spec_validate_field_configs(c.attr_fields),
        },
    }
}

/// Checking an analysis for completeness: a non-blank name and type name.
pub open spec fn spec_validate_field_config_completeness(a: FieldAnalysisV) -> Result<
    (),
    MacroErrorV,
> {
    if spec_all_whitespace(a.name) {
        Err(
            MacroErrorV::ValidationError {
                message: "字段名称不能为空"@,
                span: Some(SpanRef::Field(a.field_index)),
            },
        )
    } else if spec_all_whitespace(a.type_info.simple_name) {
        Err(
            MacroErrorV::ValidationError {
                message: "字段 '"@ + a.name + "' 的类型名称为空"@,
                span: Some(SpanRef::FieldType(a.field_index)),
            },
        )
    } else {
        Ok(())
    }
}

/// Checking an analysed `#[attr]` field's type.
pub open spec fn spec_validator_type_support(a: FieldAnalysisV) -> Result<(), MacroErrorV> {
    if !a.type_info.is_supported {
        Err(
            MacroErrorV::UnsupportedFieldType {
                field_name: a.name,
                field_type: a.type_info.simple_name,
                span: Some(SpanRef::FieldType(a.field_index)),
            },
        )
    } else {
        Ok(())
    }
}

/// Checking one analysis: its name, its type when it is marked `#[attr]`,
/// its completeness.
pub open spec fn spec_validate_field_analysis(a: FieldAnalysisV) -> Result<(), MacroErrorV> {
    match spec_validate_field_name(a.name) {
        Err(e) => Err(e),
        Ok(()) => match (if a.is_marked_as_attr {
            spec_validator_type_support(a)
        } else {
            Ok(())
        }) {
            Err(e) => Err(e),
            Ok(()) => spec_validate_field_config_completeness(a),
        },
    }
}

/// The first problem among the first `n` analyses.
pub open spec fn spec_validate_field_analyses(analyses: Seq<FieldAnalysisV>, n: nat) -> Result<
    (),
    MacroErrorV,
>
    decreases n,
{
    if n == 0 {
        Ok(())
    } else {
        match spec_validate_field_analyses(analyses, (n - 1) as nat) {
            Err(e) => Err(e),
            Ok(()) => spec_validate_field_analysis(analyses[n - 1]),
        }
    }
}

// ------------------------------------------------------- error propagation

proof fn lemma_scan_marks_stays(marks: Seq<Seq<char>>, i: nat, n: nat)
    requires
        i <= n,
        spec_scan_marks(marks, i) is Some,
    ensures
        spec_scan_marks(marks, n) == spec_scan_marks(marks, i),
    decreases n,
{
    if n > i {
        lemma_scan_marks_stays(marks, i, (n - 1) as nat);
    }
}

proof fn lemma_first_repeat_stays(items: Seq<Seq<char>>, i: nat, n: nat)
    requires
        i <= n,
        spec_first_repeat(items, i) is Some,
    ensures
        spec_first_repeat(items, n) == spec_first_repeat(items, i),
    decreases n,
{
    if n > i {
        lemma_first_repeat_stays(items, i, (n - 1) as nat);
    }
}

proof fn lemma_first_forbidden_stays(s: Seq<char>, i: nat, n: nat)
    requires
        i <= n,
        spec_first_forbidden(s, i) is Some,
    ensures
        spec_first_forbidden(s, n) == spec_first_forbidden(s, i),
    decreases n,
{
    if n > i {
        lemma_first_forbidden_stays(s, i, (n - 1) as nat);
    }
}

proof fn lemma_bracket_scan_stays(s: Seq<char>, i: nat, n: nat)
    requires
        i <= n,
        spec_bracket_scan(s, i) is Err,
    ensures
        spec_bracket_scan(s, n) == spec_bracket_scan(s, i),
    decreases n,
{
    if n > i {
        lemma_bracket_scan_stays(s, i, (n - 1) as nat);
    }
}

proof fn lemma_field_configs_stays(fcs: Seq<FieldConfigV>, i: nat, n: nat)
    requires
        i <= n,
        spec_scan_field_configs(fcs, i) is Err,
    ensures
        spec_scan_field_configs(fcs, n) == spec_scan_field_configs(fcs, i),
    decreases n,
{
    if n > i {
        lemma_field_configs_stays(fcs, i, (n - 1) as nat);
    }
}

proof fn lemma_field_analyses_stays(analyses: Seq<FieldAnalysisV>, i: nat, n: nat)
    requires
        i <= n,
        spec_validate_field_analyses(analyses, i) is Err,
    ensures
        spec_validate_field_analyses(analyses, n) == spec_validate_field_analyses(analyses, i),
    decreases n,
{
    if n > i {
        lemma_field_analyses_stays(analyses, i, (n - 1) as nat);
    }
}

// ------------------------------------------------------------------ code

/// A validation error without a place.
fn validation_error(message: String) -> (r: MacroError)
    ensures
        r@ == spec_validation_error(message@),
{
    MacroError::ValidationError { message, span: None }
}

/// The position of the first item that repeats an earlier one.
fn first_repeat_index(items: &Vec<String>) -> (r: Option<usize>)
    ensures
        match r {
            Some(j) => spec_first_repeat(strings_view(items@), items@.len()) == Some(j as int)
                && j < items@.len(),
            None => spec_first_repeat(strings_view(items@), items@.len()) is None,
        },
{
    let ghost v = strings_view(items@);
    let n = items.len();
    let mut j: usize = 0;
    while j < n
        invariant
            n == items@.len(),
            v == strings_view(items@),
            v.len() == n,
            j <= n,
            spec_first_repeat(v, j as nat) is None,
        decreases n - j,
    {
        let mut k: usize = 0;
        while k < j
            invariant
                n == items@.len(),
                v == strings_view(items@),
                v.len() == n,
                j < n,
                k <= j,
                spec_first_repeat(v, j as nat) is None,
                forall|x: int| 0 <= x < k ==> v[x] != v[j as int],
            decreases j - k,
        {
            assert(v[k as int] == items@[k as int]@);
            assert(v[j as int] == items@[j as int]@);
            if str_eq(items[k].as_str(), items[j].as_str()) {
                proof {
                    assert(v.take(j as int)[k as int] == v[j as int]);
                    assert(v.take(j as int).contains(v[j as int]));
                    lemma_first_repeat_stays(v, (j + 1) as nat, n as nat);
                }
                return Some(j);
            }
            k = k + 1;
        }
        proof {
            assert(!v.take(j as int).contains(v[j as int]));
        }
        j = j + 1;
    }
    None
}

/// The forbidden character at this position of the list.
fn forbidden_char(k: usize) -> (c: char)
    requires
        k < 5,
    ensures
        c == spec_forbidden_chars()[k as int],
{
    match k {
        0 => '<',
        1 => '>',
        2 => '"',
        3 => '\'',
        _ => '\\',
    }
}

/// Validates configurations and field analyses.
pub struct Validator;

impl Validator {
    /// Checks a Node configuration: `node_type` present and well formed,
    /// then `marks`, `content` and the `#[attr]` fields.
    pub fn validate_node_config(config: &NodeConfig) -> (r: MacroResult<()>)
        ensures
            unit_result_view(r) == spec_validate_node_config(config@),
    {
        match Self::validate_required_node_attributes(config) {
            Ok(()) => {},
            Err(e) => return Err(e),
        }
        match Self::validate_node_type(config) {
            Ok(()) => {},
            Err(e) => return Err(e),
        }
        match Self::validate_marks_config(config) {
            Ok(()) => {},
            Err(e) => return Err(e),
        }
        match Self::validate_content_config(config) {
            Ok(()) => {},
            Err(e) => return Err(e),
        }
        match Self::validate_node_field_configs(config) {
            Ok(()) => {},
            Err(e) => return Err(e),
        }
        Self::validate_node_config_consistency(config)
    }

    /// Checks a Mark configuration: `mark_type` present and well formed,
    /// then the `#[attr]` fields.
    pub fn validate_mark_config(config: &MarkConfig) -> (r: MacroResult<()>)
        ensures
            unit_result_view(r) == spec_validate_mark_config(config@),
    {
        match Self::validate_required_mark_attributes(config) {
            Ok(()) => {},
            Err(e) => return Err(e),
        }
        match Self::validate_mark_type(config) {
            Ok(()) => {},
            Err(e) => return Err(e),
        }
        match Self::validate_mark_field_configs(config) {
            Ok(()) => {},
            Err(e) => return Err(e),
        }
        Self::validate_mark_config_consistency(config)
    }

    /// Checks analyses in order: each name, the type of each `#[attr]`
    /// field, and completeness.
    pub fn validate_field_analyses(analyses: &[FieldAnalysis]) -> (r: MacroResult<()>)
        ensures
            unit_result_view(r) == spec_validate_field_analyses(
                analyses_view(analyses@),
                analyses@.len(),
            ),
    {
        let ghost av = analyses_view(analyses@);
        let n = analyses.len();
        let mut i: usize = 0;
        while i < n
            invariant
                n == analyses@.len(),
                av == analyses_view(analyses@),
                i <= n,
                spec_validate_field_analyses(av, i as nat) == Ok::<(), MacroErrorV>(()),
            decreases n - i,
        {
            let a = &analyses[i];
            assert(av[i as int] == a@);
            let step = match Self::validate_field_name(a.name.as_str()) {
                Err(e) => Err(e),
                Ok(()) => {
                    let t = if a.is_marked_as_attr {
                        Self::validate_field_type_support(a)
                    } else {
                        Ok(())
                    };
                    match t {
                        Err(e) => Err(e),
                        Ok(()) => Self::validate_field_config_completeness(a),
                    }
                },
            };
            match step {
                Ok(()) => {},
                Err(e) => {
                    proof {
                        lemma_field_analyses_stays(av, (i + 1) as nat, n as nat);
                    }
                    return Err(e);
                },
            }
            i = i + 1;
        }
        Ok(())
    }

    fn validate_required_node_attributes(config: &NodeConfig) -> (r: MacroResult<()>)
        ensures
            unit_result_view(r) == (if config.node_type is None {
                Err(spec_validation_error("缺少必需的 node_type 属性"@))
            } else {
                Ok(())
            }),
    {
        if config.node_type.is_none() {
            return Err(validation_error(String::from_str("缺少必需的 node_type 属性")));
        }
        Ok(())
    }

    fn validate_required_mark_attributes(config: &MarkConfig) -> (r: MacroResult<()>)
        ensures
            unit_result_view(r) == (if config.mark_type is None {
                Err(spec_validation_error("缺少必需的 mark_type 属性"@))
            } else {
                Ok(())
            }),
    {
        if config.mark_type.is_none() {
            return Err(validation_error(String::from_str("缺少必需的 mark_type 属性")));
        }
        Ok(())
    }

    /// The shared check of `node_type` and `mark_type` values.
    fn check_type_value(kind: &str, t: &str) -> (r: MacroResult<()>)
        ensures
            unit_result_view(r) == spec_check_type_value(kind@, t@),
    {
        let len = byte_len(t);
        if len < MIN_IDENTIFIER_LENGTH {
            let mut m = String::from_str(kind);
            m.append(" '");
            m.append(t);
            m.append("' 太短，最少需要 ");
            m.append(usize_to_decimal(MIN_IDENTIFIER_LENGTH).as_str());
            m.append(" 个字符");
            return Err(validation_error(m));
        }
        if len > MAX_IDENTIFIER_LENGTH {
            let mut m = String::from_str(kind);
            m.append(" '");
            m.append(t);
            m.append("' 太长，最多允许 ");
            m.append(usize_to_decimal(MAX_IDENTIFIER_LENGTH).as_str());
            m.append(" 个字符");
            return Err(validation_error(m));
        }
        if !is_valid_identifier(t) {
            let mut m = String::from_str(kind);
            m.append(" '");
            m.append(t);
            m.append("' 不是有效的标识符格式");
            return Err(validation_error(m));
        }
        Ok(())
    }

    fn validate_node_type(config: &NodeConfig) -> (r: MacroResult<()>)
        requires
            config.node_type is Some,
        ensures
            unit_result_view(r) == spec_check_type_value(
                "node_type"@,
                opt_view(config.node_type)->Some_0,
            ),
    {
        match &config.node_type {
            Some(t) => Self::check_type_value("node_type", t.as_str()),
            None => Ok(()),
        }
    }

    fn validate_mark_type(config: &MarkConfig) -> (r: MacroResult<()>)
        requires
            config.mark_type is Some,
        ensures
            unit_result_view(r) == spec_check_type_value(
                "mark_type"@,
                opt_view(config.mark_type)->Some_0,
            ),
    {
        match &config.mark_type {
            Some(t) => Self::check_type_value("mark_type", t.as_str()),
            None => Ok(()),
        }
    }

    fn validate_marks_config(config: &NodeConfig) -> (r: MacroResult<()>)
        ensures
            unit_result_view(r) == spec_validate_marks_config(opt_view(config.marks)),
    {
        let marks = match &config.marks {
            None => return Ok(()),
            Some(m) => m,
        };
        if is_blank(marks.as_str()) {
            return Err(
                validation_error(
                    String::from_str("marks 列表不能为空，如果不需要标记请移除 marks 属性"),
                ),
            );
        }
        let mark_list = split_whitespace(marks.as_str());
        let ghost w = strings_view(mark_list@);
        let n = mark_list.len();
        if n > MAX_MARKS_COUNT {
            let mut m = String::from_str("marks 列表太长，最多允许 ");
            m.append(usize_to_decimal(MAX_MARKS_COUNT).as_str());
            m.append(" 个标记，当前有 ");
            m.append(usize_to_decimal(n).as_str());
            m.append(" 个");
            return Err(validation_error(m));
        }
        let mut i: usize = 0;
        while i < n
            invariant
                n == mark_list@.len(),
                w == strings_view(mark_list@),
                w == spec_words(marks@),
                opt_view(config.marks) == Some(marks@),
                !spec_all_whitespace(marks@),
                n <= MAX_MARKS_COUNT,
                i <= n,
                spec_scan_marks(w, i as nat) is None,
            decreases n - i,
        {
            let mark = mark_list[i].as_str();
            assert(w[i as int] == mark@);
            if !is_valid_identifier(mark) {
                let mut m = String::from_str("marks 列表中第 ");
                m.append(usize_to_decimal(i + 1).as_str());
                m.append(" 个标记 '");
                m.append(mark);
                m.append("' 不是有效的标识符格式");
                proof {
                    lemma_scan_marks_stays(w, (i + 1) as nat, n as nat);
                }
                return Err(validation_error(m));
            }
            if byte_len(mark) > MAX_IDENTIFIER_LENGTH {
                let mut m = String::from_str("marks 列表中的标记 '");
                m.append(mark);
                m.append("' 太长，最多允许 ");
                m.append(usize_to_decimal(MAX_IDENTIFIER_LENGTH).as_str());
                m.append(" 个字符");
                proof {
                    lemma_scan_marks_stays(w, (i + 1) as nat, n as nat);
                }
                return Err(validation_error(m));
            }
            i = i + 1;
        }
        match first_repeat_index(&mark_list) {
            Some(j) => {
                assert(w[j as int] == mark_list@[j as int]@);
                Err(
                    validation_error(
                        concat3("marks 列表中存在重复的标记: '", mark_list[j].as_str(), "'"),
                    ),
                )
            },
            None => Ok(()),
        }
    }

    fn validate_content_config(config: &NodeConfig) -> (r: MacroResult<()>)
        ensures
            unit_result_view(r) == spec_validate_content_config(opt_view(config.content)),
    {
        let content = match &config.content {
            None => return Ok(()),
            Some(c) => c,
        };
        if is_blank(content.as_str()) {
            return Err(
                validation_error(
                    String::from_str("content 表达式不能为空，如果不需要内容约束请移除 content 属性"),
                ),
            );
        }
        let len = byte_len(content.as_str());
        if len > MAX_ATTRIBUTE_VALUE_LENGTH {
            let mut m = String::from_str("content 表达式太长，最多允许 ");
            m.append(usize_to_decimal(MAX_ATTRIBUTE_VALUE_LENGTH).as_str());
            m.append(" 个字符，当前有 ");
            m.append(usize_to_decimal(len).as_str());
            m.append(" 个");
            return Err(validation_error(m));
        }
        Self::validate_content_expression_syntax(content.as_str())
    }

    /// Checks the form of a content expression: no forbidden character
    /// (`<`, `>`, `"`, `'`, `\`), and parentheses, brackets and braces that
    /// close in order.
    pub fn validate_content_expression_syntax(expression: &str) -> (r: MacroResult<()>)
        ensures
            unit_result_view(r) == spec_validate_content_expression_syntax(expression@),
    {
        let mut k: usize = 0;
        while k < 5
            invariant
                k <= 5,
                spec_first_forbidden(expression@, k as nat) is None,
            decreases 5 - k,
        {
            let ch = forbidden_char(k);
            if contains_char(expression, ch) {
                let mut m = String::from_str("content 表达式包含不允许的字符 '");
                let ghost head = m@;
                push_char(&mut m, ch);
                assert(m@ =~= head + seq![ch]);
                m.append("'");
                proof {
                    lemma_first_forbidden_stays(expression@, (k + 1) as nat, 5);
                }
                return Err(validation_error(m));
            }
            k = k + 1;
        }
        let n = expression.unicode_len();
        let mut paren: usize = 0;
        let mut bracket: usize = 0;
        let mut brace: usize = 0;
        let mut i: usize = 0;
        while i < n
            invariant
                n == expression@.len(),
                i <= n,
                paren <= i,
                bracket <= i,
                brace <= i,
                spec_first_forbidden(expression@, 5) is None,
                spec_bracket_scan(expression@, i as nat) == Ok::<(int, int, int), Seq<char>>(
                    (paren as int, bracket as int, brace as int),
                ),
            decreases n - i,
        {
            let ch = expression.get_char(i);
            if ch == '(' {
                paren = paren + 1;
            } else if ch == ')' {
                if paren == 0 {
                    proof {
                        lemma_bracket_scan_stays(expression@, (i + 1) as nat, n as nat);
                    }
                    return Err(validation_error(String::from_str("content 表达式中的括号不匹配")));
                }
                paren = paren - 1;
            } else if ch == '[' {
                bracket = bracket + 1;
            } else if ch == ']' {
                if bracket == 0 {
                    proof {
                        lemma_bracket_scan_stays(expression@, (i + 1) as nat, n as nat);
                    }
                    return Err(validation_error(String::from_str("content 表达式中的方括号不匹配")));
                }
                bracket = bracket - 1;
            } else if ch == '{' {
                brace = brace + 1;
            } else if ch == '}' {
                if brace == 0 {
                    proof {
                        lemma_bracket_scan_stays(expression@, (i + 1) as nat, n as nat);
                    }
                    return Err(validation_error(String::from_str("content 表达式中的花括号不匹配")));
                }
                brace = brace - 1;
            }
            i = i + 1;
        }
        if paren != 0 || bracket != 0 || brace != 0 {
            return Err(validation_error(String::from_str("content 表达式中存在未闭合的括号")));
        }
        Ok(())
    }

    /// The shared check of the `#[attr]` fields of a configuration.
    fn validate_field_configs(fcs: &Vec<FieldConfig>) -> (r: MacroResult<()>)
        ensures
            unit_result_view(r) == spec_validate_field_configs(field_configs_view(fcs@)),
    {
        let ghost fv = field_configs_view(fcs@);
        let n = fcs.len();
        if n > MAX_FIELD_ATTRIBUTES {
            let mut m = String::from_str("属性字段太多，最多允许 ");
            m.append(usize_to_decimal(MAX_FIELD_ATTRIBUTES).as_str());
            m.append(" 个，当前有 ");
            m.append(usize_to_decimal(n).as_str());
            m.append(" 个");
            return Err(validation_error(m));
        }
        let mut i: usize = 0;
        while i < n
            invariant
                n == fcs@.len(),
                fv == field_configs_view(fcs@),
                n <= MAX_FIELD_ATTRIBUTES,
                i <= n,
                spec_scan_field_configs(fv, i as nat) == Ok::<(), MacroErrorV>(()),
            decreases n - i,
        {
            assert(fv[i as int] == fcs@[i as int]@);
            match Self::validate_field_config(&fcs[i]) {
                Ok(()) => {},
                Err(e) => {
                    proof {
                        lemma_field_configs_stays(fv, (i + 1) as nat, n as nat);
                    }
                    return Err(e);
                },
            }
            i = i + 1;
        }
        Self::validate_no_duplicate_field_names(fcs.as_slice())
    }

    fn validate_node_field_configs(config: &NodeConfig) -> (r: MacroResult<()>)
        ensures
            unit_result_view(r) == spec_validate_field_configs(config@.attr_fields),
    {
        Self::validate_field_configs(&config.attr_fields)
    }

    fn validate_mark_field_configs(config: &MarkConfig) -> (r: MacroResult<()>)
        ensures
            unit_result_view(r) == spec_validate_field_configs(config@.attr_fields),
    {
        Self::validate_field_configs(&config.attr_fields)
    }

    /// Checks one field configuration (see `spec_validate_field_config`).
    pub fn validate_field_config(field_config: &FieldConfig) -> (r: MacroResult<()>)
        ensures
            unit_result_view(r) == spec_validate_field_config(field_config@),
    {
        match Self::validate_field_name(field_config.name.as_str()) {
            Ok(()) => {},
            Err(e) => return Err(e),
        }
        if is_blank(field_config.type_text.as_str()) {
            return Err(
                validation_error(
                    concat3("字段 '", field_config.name.as_str(), "' 的类型名称为空"),
                ),
            );
        }
        if field_config.is_attr && !is_supported_type(&field_config.field.ty) {
            return Err(
                MacroError::unsupported_field_type(
                    field_config.name.as_str(),
                    field_config.type_text.as_str(),
                    SpanRef::FieldType(field_config.field_index),
                ),
            );
        }
        Ok(())
    }

    /// Checks a field name: not blank, a valid identifier, at most
    /// `MAX_IDENTIFIER_LENGTH` bytes.
    pub fn validate_field_name(field_name: &str) -> (r: MacroResult<()>)
        ensures
            unit_result_view(r) == spec_validate_field_name(field_name@),
    {
        if is_blank(field_name) {
            return Err(validation_error(String::from_str("字段名称不能为空")));
        }
        if !is_valid_identifier(field_name) {
            return Err(validation_error(concat3("字段名称 '", field_name, "' 不是有效的标识符格式")));
        }
        if byte_len(field_name) > MAX_IDENTIFIER_LENGTH {
            let mut m = String::from_str("字段名称 '");
            m.append(field_name);
            m.append("' 太长，最多允许 ");
            m.append(usize_to_decimal(MAX_IDENTIFIER_LENGTH).as_str());
            m.append(" 个字符");
            return Err(validation_error(m));
        }
        Ok(())
    }

    fn validate_field_type_support(analysis: &FieldAnalysis) -> (r: MacroResult<()>)
        ensures
            unit_result_view(r) == spec_validator_type_support(analysis@),
    {
        if !analysis.type_info.is_supported {
            return Err(
                MacroError::unsupported_field_type(
                    analysis.name.as_str(),
                    analysis.type_info.simple_name.as_str(),
                    SpanRef::FieldType(analysis.field_index),
                ),
            );
        }
        Ok(())
    }

    fn validate_field_config_completeness(analysis: &FieldAnalysis) -> (r: MacroResult<()>)
        ensures
            unit_result_view(r) == spec_validate_field_config_completeness(analysis@),
    {
        if is_blank(analysis.name.as_str()) {
            return Err(
                MacroError::validation_error("字段名称不能为空", SpanRef::Field(analysis.field_index)),
            );
        }
        if is_blank(analysis.type_info.simple_name.as_str()) {
            return Err(
                MacroError::validation_error(
                    concat3("字段 '", analysis.name.as_str(), "' 的类型名称为空").as_str(),
                    SpanRef::FieldType(analysis.field_index),
                ),
            );
        }
        Ok(())
    }

    /// Refuses the first field configuration whose name an earlier one has.
    pub fn validate_no_duplicate_field_names(field_configs: &[FieldConfig]) -> (r: MacroResult<()>)
        ensures
            unit_result_view(r) == spec_validate_no_duplicate_field_names(
                field_configs_view(field_configs@),
            ),
    {
        let ghost fv = field_configs_view(field_configs@);
        let n = field_configs.len();
        let mut names: Vec<String> = Vec::new();
        let mut i: usize = 0;
        while i < n
            invariant
                n == field_configs@.len(),
                fv == field_configs_view(field_configs@),
                i <= n,
                names@.len() == i,
                forall|k: int| 0 <= k < i ==> #[trigger] names@[k]@ == fv[k].name,
            decreases n - i,
        {
            assert(fv[i as int] == field_configs@[i as int]@);
            names.push(field_configs[i].name.clone());
            i = i + 1;
        }
        assert(strings_view(names@) =~= config_names(fv));
        match first_repeat_index(&names) {
            Some(j) => {
                assert(fv[j as int] == field_configs@[j as int]@);
                let fc = &field_configs[j];
                Err(
                    MacroError::validation_error(
                        concat3("存在重复的字段名称: '", fc.name.as_str(), "'").as_str(),
                        SpanRef::Field(fc.field_index),
                    ),
                )
            },
            None => Ok(()),
        }
    }

    fn validate_node_config_consistency(config: &NodeConfig) -> (r: MacroResult<()>)
        ensures
            r is Ok,
    {
        Ok(())
    }

    fn validate_mark_config_consistency(config: &MarkConfig) -> (r: MacroResult<()>)
        ensures
            r is Ok,
    {
        Ok(())
    }
}

// ------------------------------------------------------------------ laws

proof fn lemma_scan_marks_none_valid(w: Seq<Seq<char>>, n: nat)
    requires
        n <= w.len(),
        spec_scan_marks(w, n) is None,
    ensures
        spec_first_invalid_word(w, n) is None,
    decreases n,
{
    if n > 0 {
        lemma_scan_marks_none_valid(w, (n - 1) as nat);
    }
}

proof fn lemma_first_repeat_none_distinct(items: Seq<Seq<char>>, n: nat)
    requires
        n <= items.len(),
        spec_first_repeat(items, n) is None,
    ensures
        forall|i: int, j: int| 0 <= i < j < n ==> items[i] != items[j],
    decreases n,
{
    if n > 0 {
        lemma_first_repeat_none_distinct(items, (n - 1) as nat);
        assert forall|i: int, j: int| 0 <= i < j < n implies items[i] != items[j] by {
            if j == n - 1 && items[i] == items[j] {
                assert(items.take(n - 1)[i] == items[j]);
            }
        }
    }
}

/// A Node configuration that the validator accepts passes the
/// configuration's own check, lists at most `MAX_MARKS_COUNT` marks with
/// none twice, and has at most `MAX_FIELD_ATTRIBUTES` `#[attr]` fields with
/// no name twice.
pub proof fn lemma_accepted_node_config(c: NodeConfigV)
    requires
        spec_validate_node_config(c) is Ok,
    ensures
        spec_node_config_validate(c) == Ok::<(), MacroErrorV>(()),
        c.marks is Some ==> ({
            let w = spec_words(c.marks->Some_0);
            &&& w.len() <= MAX_MARKS_COUNT
            &&& forall|i: int, j: int| 0 <= i < j < w.len() ==> w[i] != w[j]
        }),
        c.attr_fields.len() <= MAX_FIELD_ATTRIBUTES,
        forall|i: int, j: int|
            0 <= i < j < c.attr_fields.len() ==> c.attr_fields[i].name != c.attr_fields[j].name,
{
    if let Some(m) = c.marks {
        let w = spec_words(m);
        lemma_scan_marks_none_valid(w, w.len());
        lemma_first_repeat_none_distinct(w, w.len());
    }
    let names = config_names(c.attr_fields);
    lemma_first_repeat_none_distinct(names, c.attr_fields.len());
    assert forall|i: int, j: int| 0 <= i < j < c.attr_fields.len() implies c.attr_fields[i].name
        != c.attr_fields[j].name by {
        assert(names[i] == c.attr_fields[i].name);
        assert(names[j] == c.attr_fields[j].name);
    }
}

/// A Mark configuration that the validator accepts passes the
/// configuration's own check, and has at most `MAX_FIELD_ATTRIBUTES`
/// `#[attr]` fields with no name twice.
pub proof fn lemma_accepted_mark_config(c: MarkConfigV)
    requires
        spec_validate_mark_config(c) is Ok,
    ensures
        spec_mark_config_validate(c) == Ok::<(), MacroErrorV>(()),
        c.attr_fields.len() <= MAX_FIELD_ATTRIBUTES,
        forall|i: int, j: int|
            0 <= i < j < c.attr_fields.len() ==> c.attr_fields[i].name != c.attr_fields[j].name,
{
    let names = config_names(c.attr_fields);
    lemma_first_repeat_none_distinct(names, c.attr_fields.len());
    assert forall|i: int, j: int| 0 <= i < j < c.attr_fields.len() implies c.attr_fields[i].name
        != c.attr_fields[j].name by {
        assert(names[i] == c.attr_fields[i].name);
        assert(names[j] == c.attr_fields[j].name);
    }
}

/// A content expression that passes the check closes every parenthesis,
/// bracket and brace it opens, and holds no forbidden character.
pub proof fn lemma_accepted_content_is_balanced(s: Seq<char>)
    requires
        spec_validate_content_expression_syntax(s) is Ok,
    ensures
        spec_bracket_scan(s, s.len()) == Ok::<(int, int, int), Seq<char>>((0, 0, 0)),
        forall|k: int| 0 <= k < 5 ==> !s.contains(#[trigger] spec_forbidden_chars()[k]),
{
    assert forall|k: int| 0 <= k < 5 implies !s.contains(#[trigger] spec_forbidden_chars()[k]) by {
        lemma_first_forbidden_none(s, 5, k);
    }
}

proof fn lemma_first_forbidden_none(s: Seq<char>, n: nat, k: int)
    requires
        n <= 5,
        0 <= k < n,
        spec_first_forbidden(s, n) is None,
    ensures
        !s.contains(spec_forbidden_chars()[k]),
    decreases n,
{
    if k < n - 1 {
        lemma_first_forbidden_none(s, (n - 1) as nat, k);
    }
}

} // verus!
