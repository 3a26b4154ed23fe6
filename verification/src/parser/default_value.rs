//! Default values of `#[attr(default = ...)]`: their typed representation and
//! the parser that classifies a raw value.

use vstd::prelude::*;
use vstd::string::*;
use crate::common::error::{MacroError, MacroErrorV, MacroResult};
use crate::syntax::SpanRef;
use crate::text::{concat, concat5, spec_trim, str_eq, trim};
use vstd::std_specs::cmp::PartialEqSpecImpl;

verus! {

/// The typed value of a default.
#[derive(Debug, Clone)]
pub enum DefaultValueType {
    /// A string, without quotes.
    String(String),
    /// An integer.
    Integer(i64),
    /// A finite floating-point number, held as its suffixed `f64` literal.
    Float(String),
    /// A boolean.
    Boolean(bool),
    /// A JSON object or array, held as its compact JSON text.
    Json(String),
    /// `null`.
    Null,
}

/// A parsed default value.
#[derive(Debug, Clone)]
pub struct DefaultValue {
    /// The raw text as written in the attribute.
    pub raw_value: String,
    /// The typed value.
    pub value_type: DefaultValueType,
    /// Whether the value is JSON.
    pub is_json: bool,
    /// Where the value was written.
    pub span: Option<SpanRef>,
}

pub ghost enum DefaultValueTypeV {
    String(Seq<char>),
    Integer(int),
    Float(Seq<char>),
    Boolean(bool),
    Json(Seq<char>),
    Null,
}

pub ghost struct DefaultValueV {
    pub raw_value: Seq<char>,
    pub value_type: DefaultValueTypeV,
    pub is_json: bool,
    pub span: Option<SpanRef>,
}

impl View for DefaultValueType {
    type V = DefaultValueTypeV;

    open spec fn view(&self) -> DefaultValueTypeV {
        match self {
            DefaultValueType::String(s) => DefaultValueTypeV::String(s@),
            DefaultValueType::Integer(i) => DefaultValueTypeV::Integer(*i as int),
            DefaultValueType::Float(s) => DefaultValueTypeV::Float(s@),
            DefaultValueType::Boolean(b) => DefaultValueTypeV::Boolean(*b),
            DefaultValueType::Json(s) => DefaultValueTypeV::Json(s@),
            DefaultValueType::Null => DefaultValueTypeV::Null,
        }
    }
}

impl View for DefaultValue {
    type V = DefaultValueV;

    open spec fn view(&self) -> DefaultValueV {
        DefaultValueV {
            raw_value: self.raw_value@,
            value_type: self.value_type@,
            is_json: self.is_json,
            span: self.span,
        }
    }
}

/// What `serde_json::from_str::<serde_json::Value>` gives for a text:
/// the compact text of the value it reads, or the message of its error.
pub uninterp spec fn spec_json_parse(s: Seq<char>) -> Result<Seq<char>, Seq<char>>;

/// Calls `serde_json::from_str::<serde_json::Value>`; on success gives the
/// value's compact JSON text (its `Display`), on failure the error's message.
/// The contract names the outcome as a function of the input text; what the
/// JSON grammar accepts is left to the crate.
#[verifier::external_body]
fn json_parse(s: &str) -> (r: Result<String, String>)
    ensures
        match r {
            Ok(t) => spec_json_parse(s@) == Ok::<Seq<char>, Seq<char>>(t@),
            Err(e) => spec_json_parse(s@) == Err::<Seq<char>, Seq<char>>(e@),
        },
{
    match serde_json::from_str::<serde_json::Value>(s) {
        Ok(v) => Ok(v.to_string()),
        Err(e) => Err(e.to_string()),
    }
}

/// Whether `c` is an ASCII decimal digit.
pub open spec fn spec_is_digit(c: char) -> bool {
    '0' <= c <= '9'
}

/// The value of a string of decimal digits.
pub open spec fn spec_digits_value(s: Seq<char>) -> int
    decreases s.len(),
{
    if s.len() == 0 {
        0
    } else {
        spec_digits_value(s.drop_last()) * 10 + (s.last() as int - '0' as int)
    }
}

/// A non-empty run of decimal digits.
pub open spec fn spec_all_digits(s: Seq<char>) -> bool {
    s.len() > 0 && forall|i: int| 0 <= i < s.len() ==> spec_is_digit(#[trigger] s[i])
}

/// What `str::parse::<i64>` accepts: an optional `+` or `-` followed by
/// decimal digits only, whose value fits in an `i64`.
pub open spec fn spec_parse_i64(s: Seq<char>) -> Option<int> {
    let signed = s.len() > 0 && (s[0] == '+' || s[0] == '-');
    let digits = if signed {
        s.drop_first()
    } else {
        s
    };
    let v = if signed && s[0] == '-' {
        -spec_digits_value(digits)
    } else {
        spec_digits_value(digits)
    };
    if spec_all_digits(digits) && i64::MIN <= v <= i64::MAX {
        Some(v)
    } else {
        None
    }
}

/// A run of digits has at least the value of each of its prefixes.
proof fn lemma_digits_value_grows(t: Seq<char>, k: int)
    requires
        0 <= k <= t.len(),
        forall|j: int| 0 <= j < t.len() ==> spec_is_digit(#[trigger] t[j]),
    ensures
        spec_digits_value(t.subrange(0, k)) <= spec_digits_value(t),
    decreases t.len() - k,
{
    if k < t.len() {
        lemma_digits_value_grows(t, k + 1);
        let p = t.subrange(0, k + 1);
        assert(p.drop_last() =~= t.subrange(0, k));
        assert(spec_digits_value(p) == spec_digits_value(t.subrange(0, k)) * 10 + (p.last() as int
            - '0' as int));
        assert(spec_digits_value(t.subrange(0, k)) >= 0) by {
            lemma_digits_value_nonneg(t.subrange(0, k));
        }
    } else {
        assert(t.subrange(0, k) =~= t);
    }
}

/// A run of digits has a value of at least zero.
proof fn lemma_digits_value_nonneg(t: Seq<char>)
    requires
        forall|j: int| 0 <= j < t.len() ==> spec_is_digit(#[trigger] t[j]),
    ensures
        spec_digits_value(t) >= 0,
    decreases t.len(),
{
    if t.len() > 0 {
        lemma_digits_value_nonneg(t.drop_last());
    }
}

/// `str::parse::<i64>`: an optional `+` or `-`, then decimal digits whose
/// value fits in an `i64` (see `spec_parse_i64`).
pub(crate) fn parse_i64(s: &str) -> (r: Option<i64>)
    ensures
        match r {
            Some(v) => spec_parse_i64(s@) == Some(v as int),
            None => spec_parse_i64(s@) is None,
        },
{
    let n = s.unicode_len();
    if n == 0 {
        return None;
    }
    let first = s.get_char(0);
    let signed = first == '+' || first == '-';
    let negative = first == '-';
    let start: usize = if signed {
        1
    } else {
        0
    };
    let ghost digits = if signed {
        s@.drop_first()
    } else {
        s@
    };
    assert(digits =~= s@.subrange(start as int, n as int));
    if start >= n {
        return None;
    }
    let mut acc: i128 = 0;
    let mut i: usize = start;
    assert(digits.subrange(0, 0) =~= Seq::<char>::empty());
    while i < n
        invariant
            start <= i <= n,
            n == s@.len(),
            start < n,
            digits == s@.subrange(start as int, n as int),
            signed == (s@[0] == '+' || s@[0] == '-'),
            negative == (s@[0] == '-'),
            digits == (if signed {
                s@.drop_first()
            } else {
                s@
            }),
            forall|j: int| 0 <= j < i - start ==> spec_is_digit(#[trigger] digits[j]),
            acc == spec_digits_value(digits.subrange(0, i - start)),
            0 <= acc <= 9223372036854775808,
        decreases n - i,
    {
        let c = s.get_char(i);
        assert(digits[i - start] == c);
        if !('0' <= c && c <= '9') {
            assert(!spec_is_digit(digits[i - start]));
            return None;
        }
        let d = (c as u32 - 48) as i128;
        let ghost p = digits.subrange(0, i - start + 1);
        assert(p.drop_last() =~= digits.subrange(0, i - start));
        assert(p.last() == c);
        acc = acc * 10 + d;
        assert(acc == spec_digits_value(p));
        if acc > 9223372036854775808 {
            proof {
                if spec_all_digits(digits) {
                    lemma_digits_value_grows(digits, i - start + 1);
                    assert(spec_digits_value(digits) > 9223372036854775808);
                }
            }
            return None;
        }
        i = i + 1;
    }
    assert(digits.subrange(0, n - start) =~= digits);
    if negative {
        if acc > 9223372036854775808 {
            return None;
        }
        Some((-acc) as i64)
    } else {
        if acc > 9223372036854775807 {
            return None;
        }
        Some(acc as i64)
    }
}

/// The JSON shape check: after trimming, at least two characters, starting
/// with `{` and ending with `}`, or starting with `[` and ending with `]`.
pub open spec fn spec_is_json_format(value: Seq<char>) -> bool {
    let t = spec_trim(value);
    t.len() >= 2 && ((t[0] == '{' && t.last() == '}') || (t[0] == '[' && t.last() == ']'))
}

/// The error a default value that fails to parse is reported with.
pub open spec fn spec_default_value_parse_error(reason: Seq<char>, value: Seq<char>, span: SpanRef) -> MacroErrorV {
    MacroErrorV::ParseError {
        message: "默认值解析失败: "@ + reason + " (问题值: '"@ + value + "')"@,
        span: Some(span),
    }
}

/// How a raw default value is classified.  `float_literal` is the suffixed
/// `f64` literal of the trimmed text when that text parses as a finite `f64`.
pub open spec fn spec_parse_default_value(
    raw: Seq<char>,
    span: Option<SpanRef>,
    float_literal: Option<Seq<char>>,
) -> Result<DefaultValueV, MacroErrorV> {
    let t = spec_trim(raw);
    let ok = |ty: DefaultValueTypeV, is_json: bool|
        DefaultValueV { raw_value: raw, value_type: ty, is_json, span };
    if t.len() == 0 {
        Ok(ok(DefaultValueTypeV::String(Seq::empty()), false))
    } else if spec_is_json_format(t) {
        match spec_json_parse(t) {
            Ok(j) => Ok(ok(DefaultValueTypeV::Json(j), true)),
            Err(e) => Err(
                spec_default_value_parse_error(
                    "JSON 解析失败: "@ + e,
                    raw,
                    match span {
                        Some(s) => s,
                        None => SpanRef::CallSite,
                    },
                ),
            ),
        }
    } else if t == "true"@ {
        Ok(ok(DefaultValueTypeV::Boolean(true), false))
    } else if t == "false"@ {
        Ok(ok(DefaultValueTypeV::Boolean(false), false))
    } else if t == "null"@ {
        Ok(ok(DefaultValueTypeV::Null, false))
    } else if spec_parse_i64(t) is Some {
        Ok(ok(DefaultValueTypeV::Integer(spec_parse_i64(t)->Some_0), false))
    } else if float_literal is Some {
        Ok(ok(DefaultValueTypeV::Float(float_literal->Some_0), false))
    } else {
        Ok(ok(DefaultValueTypeV::String(t), false))
    }
}

/// The view of a default-value result.
pub open spec fn default_result_view(r: MacroResult<DefaultValue>) -> Result<DefaultValueV, MacroErrorV> {
    match r {
        Ok(v) => Ok(v@),
        Err(e) => Err(e@),
    }
}

impl MacroError {
    /// The error for a default value that fails to parse.
    pub fn default_value_parse_error(reason: &str, value: &str, span: SpanRef) -> (r: MacroError)
        ensures
            r@ == spec_default_value_parse_error(reason@, value@, span),
    {
        MacroError::ParseError {
            message: concat5("默认值解析失败: ", reason, " (问题值: '", value, "')"),
            span: Some(span),
        }
    }
}

/// Parses default values.
pub struct DefaultValueParser;

impl DefaultValueParser {
    /// Classifies `raw_value`: blank text is an empty string; text shaped like
    /// a JSON object or array is parsed as JSON (an error if that fails);
    /// then `true`, `false`, `null`, an `i64`, a finite float (as reported in
    /// `float_literal`), and otherwise the trimmed text as a string.
    pub fn parse(raw_value: &str, span: Option<SpanRef>, float_literal: Option<String>) -> (r:
        MacroResult<DefaultValue>)
        ensures
            default_result_view(r) == spec_parse_default_value(
                raw_value@,
                span,
                match float_literal {
                    Some(f) => Some(f@),
                    None => None,
                },
            ),
    {
        let trimmed = trim(raw_value);
        let t = trimmed.as_str();
        let raw = String::from_str(raw_value);
        if t.unicode_len() == 0 {
            return Ok(
                DefaultValue {
                    raw_value: raw,
                    value_type: DefaultValueType::String(String::new()),
                    is_json: false,
                    span,
                },
            );
        }
        if Self::is_json_format(t) {
            match json_parse(t) {
                Ok(j) => {
                    return Ok(
                        DefaultValue {
                            raw_value: raw,
                            value_type: DefaultValueType::Json(j),
                            is_json: true,
                            span,
                        },
                    );
                },
                Err(e) => {
                    let reason = concat("JSON 解析失败: ", e.as_str());
                    let at = match span {
                        Some(s) => s,
                        None => SpanRef::CallSite,
                    };
                    return Err(MacroError::default_value_parse_error(reason.as_str(), raw_value, at));
                },
            }
        }
        if str_eq(t, "true") {
            return Ok(
                DefaultValue {
                    raw_value: raw,
                    value_type: DefaultValueType::Boolean(true),
                    is_json: false,
                    span,
                },
            );
        }
        if str_eq(t, "false") {
            return Ok(
                DefaultValue {
                    raw_value: raw,
                    value_type: DefaultValueType::Boolean(false),
                    is_json: false,
                    span,
                },
            );
        }
        if str_eq(t, "null") {
            return Ok(
                DefaultValue { raw_value: raw, value_type: DefaultValueType::Null, is_json: false, span },
            );
        }
        if let Some(v) = parse_i64(t) {
            return Ok(
                DefaultValue {
                    raw_value: raw,
                    value_type: DefaultValueType::Integer(v),
                    is_json: false,
                    span,
                },
            );
        }
        if let Some(f) = float_literal {
            return Ok(
                DefaultValue {
                    raw_value: raw,
                    value_type: DefaultValueType::Float(f),
                    is_json: false,
                    span,
                },
            );
        }
        Ok(
            DefaultValue {
                raw_value: raw,
                value_type: DefaultValueType::String(trimmed),
                is_json: false,
                span,
            },
        )
    }

    /// Whether `value`, once trimmed, looks like a JSON object or array.
    pub fn is_json_format(value: &str) -> (r: bool)
        ensures
            r == spec_is_json_format(value@),
    {
        let trimmed = trim(value);
        let t = trimmed.as_str();
        let n = t.unicode_len();
        if n < 2 {
            return false;
        }
        let first = t.get_char(0);
        let last = t.get_char(n - 1);
        if first == '{' && last == '}' {
            return true;
        }
        if first == '[' && last == ']' {
            return true;
        }
        false
    }
}

impl DefaultValue {
    /// The name of the value's type.
    pub fn type_label(&self) -> (r: &'static str)
        ensures
            r@ == spec_default_type_name(self.value_type@),
    {
        match &self.value_type {
            DefaultValueType::String(_) => "String",
            DefaultValueType::Integer(_) => "Integer",
            DefaultValueType::Float(_) => "Float",
            DefaultValueType::Boolean(_) => "Boolean",
            DefaultValueType::Json(_) => "Json",
            DefaultValueType::Null => "Null",
        }
    }

    /// Whether the value is an integer or a float.
    pub fn is_numeric(&self) -> (r: bool)
        ensures
            r == (self.value_type@ is Integer || self.value_type@ is Float),
    {
        match &self.value_type {
            DefaultValueType::Integer(_) | DefaultValueType::Float(_) => true,
            _ => false,
        }
    }

    /// Whether the value is a string.
    pub fn is_string(&self) -> (r: bool)
        ensures
            r == self.value_type@ is String,
    {
        match &self.value_type {
            DefaultValueType::String(_) => true,
            _ => false,
        }
    }

    /// Whether the value is a boolean.
    pub fn is_boolean(&self) -> (r: bool)
        ensures
            r == self.value_type@ is Boolean,
    {
        match &self.value_type {
            DefaultValueType::Boolean(_) => true,
            _ => false,
        }
    }

    /// Whether the value is `null`.
    pub fn is_null(&self) -> (r: bool)
        ensures
            r == self.value_type@ is Null,
    {
        match &self.value_type {
            DefaultValueType::Null => true,
            _ => false,
        }
    }
}

/// The name of a default value's type.
pub open spec fn spec_default_type_name(t: DefaultValueTypeV) -> Seq<char> {
    match t {
        DefaultValueTypeV::String(_) => "String"@,
        DefaultValueTypeV::Integer(_) => "Integer"@,
        DefaultValueTypeV::Float(_) => "Float"@,
        DefaultValueTypeV::Boolean(_) => "Boolean"@,
        DefaultValueTypeV::Json(_) => "Json"@,
        DefaultValueTypeV::Null => "Null"@,
    }
}

/// Two typed values are the same.
fn value_type_eq(a: &DefaultValueType, b: &DefaultValueType) -> (r: bool)
    ensures
        r == (a@ == b@),
{
    match (a, b) {
        (DefaultValueType::String(x), DefaultValueType::String(y)) => str_eq(x.as_str(), y.as_str()),
        (DefaultValueType::Integer(x), DefaultValueType::Integer(y)) => *x == *y,
        (DefaultValueType::Float(x), DefaultValueType::Float(y)) => str_eq(x.as_str(), y.as_str()),
        (DefaultValueType::Boolean(x), DefaultValueType::Boolean(y)) => *x == *y,
        (DefaultValueType::Json(x), DefaultValueType::Json(y)) => str_eq(x.as_str(), y.as_str()),
        (DefaultValueType::Null, DefaultValueType::Null) => true,
        _ => false,
    }
}

/// Two default values are equal when their raw text, typed value and JSON
/// flag are; where they were written does not count.
pub open spec fn spec_default_value_eq(a: DefaultValueV, b: DefaultValueV) -> bool {
    a.raw_value == b.raw_value && a.value_type == b.value_type && a.is_json == b.is_json
}

impl PartialEq for DefaultValue {
    fn eq(&self, other: &Self) -> (r: bool) {
        str_eq(self.raw_value.as_str(), other.raw_value.as_str()) && value_type_eq(
            &self.value_type,
            &other.value_type,
        ) && self.is_json == other.is_json
    }
}

impl PartialEqSpecImpl for DefaultValue {
    open spec fn obeys_eq_spec() -> bool {
        true
    }

    open spec fn eq_spec(&self, other: &Self) -> bool {
        spec_default_value_eq(self@, other@)
    }
}

} // verus!
