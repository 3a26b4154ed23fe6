//! The generator of a Node's conversion methods: `to_node`, building the
//! node from the struct, and `from`, reading the struct back from a node.

use vstd::prelude::*;
use vstd::string::*;
use crate::common::error::{MacroError, MacroErrorV, MacroResult};
use crate::common::utils::generate_imports;
use crate::generator::CodeGenerator;
use crate::generator::doc_attributes::{NODE_FROM_DOC, TO_NODE_DOC};
use crate::generator::tokens::{
    parses_as_ident, spec_parses_as_ident, spec_string_literal, string_literal,
};
use crate::parser::attribute_parser::{
    FieldConfig, FieldConfigV, NodeConfig, NodeConfigV, field_configs_view, string_result_view,
};
use crate::syntax::{SpanRef, SynDeriveInput, SynDeriveInputV, opt_view};
use crate::text::{concat, spec_starts_with, starts_with, str_eq};

verus! {

broadcast use vstd::std_specs::vec::group_vec_axioms;

// ------------------------------------------------------------------ specs

/// A string literal holding `s`.
pub open spec fn lit(s: Seq<char>) -> Seq<char> {
    spec_string_literal(s)
}

/// A brace group around `inner`, as the token printer writes it.
pub open spec fn braced(inner: Seq<char>) -> Seq<char> {
    if inner.len() == 0 {
        "{ }"@
    } else {
        "{ "@ + inner + " }"@
    }
}

/// The refusal of a field name that is not an identifier.
pub open spec fn spec_bad_field_name(name: Seq<char>, span: SpanRef) -> MacroErrorV {
    MacroErrorV::ParseError { message: "无效的字段名称: "@ + name, span: Some(span) }
}

/// The first position of `c` in `s` from `k` on.
pub open spec fn spec_first_index(s: Seq<char>, c: char, k: int) -> Option<int>
    decreases s.len() - k,
{
    if k < 0 || k >= s.len() {
        None
    } else if s[k] == c {
        Some(k)
    } else {
        spec_first_index(s, c, k + 1)
    }
}

/// The last position of `c` among the first `n` characters of `s`.
pub open spec fn spec_last_index(s: Seq<char>, c: char, n: int) -> Option<int>
    decreases n,
{
    if n <= 0 || n > s.len() {
        None
    } else if s[n - 1] == c {
        Some(n - 1)
    } else {
        spec_last_index(s, c, n - 1)
    }
}

/// The text between the first `<` and the last `>` of a type name, or
/// `String` when there is no such pair.
pub open spec fn spec_inner_type_name(t: Seq<char>) -> Seq<char> {
    match (spec_first_index(t, '<', 0), spec_last_index(t, '>', t.len() as int)) {
        (Some(a), Some(b)) => if a < b {
            t.subrange(a + 1, b)
        } else {
            "String"@
        },
        _ => "String"@,
    }
}

/// How a node reads an attribute as one of the integer types other than
/// `i32`, or as `f32`: through the JSON accessor of its sign (or `as_f64`),
/// converted with `as` where the accessor's type differs.
pub open spec fn spec_numeric_read(t: Seq<char>) -> Option<Seq<char>> {
    if t == "i8"@ {
        Some(" . and_then (| v | v . as_i64 ()) . map (| i | i as i8)"@)
    } else if t == "i16"@ {
        Some(" . and_then (| v | v . as_i64 ()) . map (| i | i as i16)"@)
    } else if t == "i64"@ {
        Some(" . and_then (| v | v . as_i64 ())"@)
    } else if t == "i128"@ {
        Some(" . and_then (| v | v . as_i64 ()) . map (| i | i as i128)"@)
    } else if t == "isize"@ {
        Some(" . and_then (| v | v . as_i64 ()) . map (| i | i as isize)"@)
    } else if t == "u8"@ {
        Some(" . and_then (| v | v . as_u64 ()) . map (| u | u as u8)"@)
    } else if t == "u16"@ {
        Some(" . and_then (| v | v . as_u64 ()) . map (| u | u as u16)"@)
    } else if t == "u32"@ {
        Some(" . and_then (| v | v . as_u64 ()) . map (| u | u as u32)"@)
    } else if t == "u64"@ {
        Some(" . and_then (| v | v . as_u64 ())"@)
    } else if t == "u128"@ {
        Some(" . and_then (| v | v . as_u64 ()) . map (| u | u as u128)"@)
    } else if t == "usize"@ {
        Some(" . and_then (| v | v . as_u64 ()) . map (| u | u as usize)"@)
    } else if t == "f32"@ {
        Some(" . and_then (| v | v . as_f64 ()) . map (| f | f as f32)"@)
    } else {
        None
    }
}

/// How a node reads an attribute of a numeric type (see
/// `spec_numeric_read`).
pub fn numeric_read(t: &str) -> (r: Option<&'static str>)
    ensures
        match r {
            Some(x) => spec_numeric_read(t@) == Some(x@),
            None => spec_numeric_read(t@) is None,
        },
{
    if str_eq(t, "i8") {
        Some(" . and_then (| v | v . as_i64 ()) . map (| i | i as i8)")
    } else if str_eq(t, "i16") {
        Some(" . and_then (| v | v . as_i64 ()) . map (| i | i as i16)")
    } else if str_eq(t, "i64") {
        Some(" . and_then (| v | v . as_i64 ())")
    } else if str_eq(t, "i128") {
        Some(" . and_then (| v | v . as_i64 ()) . map (| i | i as i128)")
    } else if str_eq(t, "isize") {
        Some(" . and_then (| v | v . as_i64 ()) . map (| i | i as isize)")
    } else if str_eq(t, "u8") {
        Some(" . and_then (| v | v . as_u64 ()) . map (| u | u as u8)")
    } else if str_eq(t, "u16") {
        Some(" . and_then (| v | v . as_u64 ()) . map (| u | u as u16)")
    } else if str_eq(t, "u32") {
        Some(" . and_then (| v | v . as_u64 ()) . map (| u | u as u32)")
    } else if str_eq(t, "u64") {
        Some(" . and_then (| v | v . as_u64 ())")
    } else if str_eq(t, "u128") {
        Some(" . and_then (| v | v . as_u64 ()) . map (| u | u as u128)")
    } else if str_eq(t, "usize") {
        Some(" . and_then (| v | v . as_u64 ()) . map (| u | u as usize)")
    } else if str_eq(t, "f32") {
        Some(" . and_then (| v | v . as_f64 ()) . map (| f | f as f32)")
    } else {
        None
    }
}

/// The code reading the attribute `l` (a string literal) of a node as a
/// value of type `t`, if the type is one that nodes can read.
pub open spec fn spec_node_extraction(l: Seq<char>, t: Seq<char>) -> Option<Seq<char>> {
    let get = "node . attrs . attrs . get ("@ + l + ")"@;
    if t == "String"@ {
        Some(get + " . and_then (| v | v . as_str ()) . map (| s | s . to_string ()) . unwrap_or_default ()"@)
    } else if t == "i32"@ {
        Some(get + " . and_then (| v | v . as_i64 ()) . map (| i | i as i32) . unwrap_or_default ()"@)
    } else if t == "f64"@ {
        Some(get + " . and_then (| v | v . as_f64 ()) . unwrap_or_default ()"@)
    } else if t == "bool"@ {
        Some(get + " . and_then (| v | v . as_bool ()) . unwrap_or_default ()"@)
    } else if spec_numeric_read(t) is Some {
        Some(get + spec_numeric_read(t)->Some_0 + " . unwrap_or_default ()"@)
    } else if t == "serde_json::Value"@ || t == "Value"@ {
        Some(get + " . cloned () . unwrap_or (serde_json :: Value :: Null)"@)
    } else if t == "uuid::Uuid"@ || t == "Uuid"@ {
        Some(
            get
                + " . and_then (| v | v . as_str ()) . and_then (| s | uuid :: Uuid :: parse_str (s) . ok ()) . unwrap_or_else (uuid :: Uuid :: new_v4)"@,
        )
    } else if t == "Vec<u8>"@ {
        Some(
            get
                + " . and_then (| v | v . as_array ()) . map (| arr | arr . iter () . filter_map (| v | v . as_u64 () . map (| u | u as u8)) . collect ()) . unwrap_or_default ()"@,
        )
    } else if t == "Vec<String>"@ {
        Some(
            get
                + " . and_then (| v | v . as_array ()) . map (| arr | arr . iter () . filter_map (| v | v . as_str () . map (| s | s . to_string ())) . collect ()) . unwrap_or_default ()"@,
        )
    } else if spec_starts_with(t, "Option<"@) {
        let inner = spec_inner_type_name(t);
        if inner == "String"@ {
            Some(get + " . and_then (| v | v . as_str ()) . map (| s | s . to_string ())"@)
        } else if inner == "i32"@ {
            Some(get + " . and_then (| v | v . as_i64 ()) . map (| i | i as i32)"@)
        } else if inner == "f64"@ {
            Some(get + " . and_then (| v | v . as_f64 ())"@)
        } else if inner == "bool"@ {
            Some(get + " . and_then (| v | v . as_bool ())"@)
        } else if spec_numeric_read(inner) is Some {
            Some(get + spec_numeric_read(inner)->Some_0)
        } else if inner == "serde_json::Value"@ || inner == "Value"@ {
            Some(get + " . cloned ()"@)
        } else if inner == "uuid::Uuid"@ || inner == "Uuid"@ {
            Some(
                get
                    + " . and_then (| v | v . as_str ()) . and_then (| s | uuid :: Uuid :: parse_str (s) . ok ())"@,
            )
        } else {
            Some("None"@)
        }
    } else {
        None
    }
}

/// The entry of an `#[attr]` field in the node's attribute specification.
pub open spec fn spec_node_field_spec(fc: FieldConfigV) -> Result<Seq<char>, MacroErrorV> {
    if !spec_parses_as_ident(fc.name) {
        Err(spec_bad_field_name(fc.name, SpanRef::Field(fc.field_index)))
    } else {
        Ok(
            "attrs_map . insert ("@ + lit(fc.name)
                + " . to_string () , mf_model :: schema :: AttributeSpec { default : Some (serde_json :: to_value (& self . "@
                + fc.name + ") . unwrap_or (serde_json :: Value :: Null)) }) ;"@,
        )
    }
}

/// The entries of the first `n` fields, one after another.
pub open spec fn spec_node_field_specs(fcs: Seq<FieldConfigV>, n: nat) -> Result<
    Seq<char>,
    MacroErrorV,
>
    decreases n,
{
    if n == 0 {
        Ok(Seq::empty())
    } else {
        match spec_node_field_specs(fcs, (n - 1) as nat) {
            Err(e) => Err(e),
            Ok(acc) => match spec_node_field_spec(fcs[n - 1]) {
                Err(e) => Err(e),
                Ok(s) => Ok(
                    if n == 1 {
                        s
                    } else {
                        acc + " "@ + s
                    },
                ),
            },
        }
    }
}

/// The statements that build the node's attribute specification: an empty
/// map when there are no `#[attr]` fields.
pub open spec fn spec_node_attrs_code(fcs: Seq<FieldConfigV>) -> Result<Seq<char>, MacroErrorV> {
    if fcs.len() == 0 {
        Ok("let attrs = Some (Default :: default ()) ;"@)
    } else {
        match spec_node_field_specs(fcs, fcs.len()) {
            Err(e) => Err(e),
            Ok(s) => Ok(
                "let mut attrs_map = std :: collections :: HashMap :: new () ; "@ + s
                    + " let attrs = Some (attrs_map) ;"@,
            ),
        }
    }
}

/// An optional string as generated code: `Some("..".to_string())` or `None`.
pub open spec fn spec_optional_text(o: Option<Seq<char>>) -> Seq<char> {
    match o {
        Some(t) => "Some ("@ + lit(t) + " . to_string ())"@,
        None => "None"@,
    }
}

/// The statements that build the node specification `spec`.
pub open spec fn spec_node_spec_code(c: NodeConfigV) -> Result<Seq<char>, MacroErrorV> {
    match spec_node_attrs_code(c.attr_fields) {
        Err(e) => Err(e),
        Ok(a) => Ok(
            a + " let spec = mf_model :: node_type :: NodeSpec { content : "@ + spec_optional_text(
                c.content,
            ) + " , marks : "@ + spec_optional_text(c.marks)
                + " , attrs , group : None , desc : None , } ;"@,
        ),
    }
}

/// The refusal of a configuration without `node_type`.
pub open spec fn spec_missing_node_type() -> MacroErrorV {
    MacroErrorV::ValidationError {
        message: "Node 配置缺少必需的 node_type 属性"@,
        span: Some(SpanRef::Input),
    }
}

/// The `to_node` method.
pub open spec fn spec_to_node_method(c: NodeConfigV) -> Result<Seq<char>, MacroErrorV> {
    match c.node_type {
        None => Err(spec_missing_node_type()),
        Some(nt) => match spec_node_spec_code(c) {
            Err(e) => Err(e),
            Ok(sc) => Ok(
                TO_NODE_DOC@ + " pub fn to_node (& self) -> mf_core :: node :: Node { "@
                    + "use mf_model :: node_type :: NodeSpec ; use mf_model :: schema :: AttributeSpec ; use std :: collections :: HashMap ; use serde_json :: Value as JsonValue ;"@
                    + " "@ + sc + " mf_core :: node :: Node :: create ("@ + lit(nt) + " , spec) }"@,
            ),
        },
    }
}

/// The initialiser of an `#[attr]` field in `from`.
pub open spec fn spec_node_field_init(fc: FieldConfigV) -> Result<Seq<char>, MacroErrorV> {
    if !spec_parses_as_ident(fc.name) {
        Err(spec_bad_field_name(fc.name, SpanRef::Field(fc.field_index)))
    } else {
        match spec_node_extraction(lit(fc.name), fc.type_text) {
            None => Err(
                MacroErrorV::ValidationError {
                    message: "不支持的字段类型: "@ + fc.type_text,
                    span: Some(SpanRef::Input),
                },
            ),
            Some(x) => Ok(fc.name + " : "@ + x),
        }
    }
}

/// The initialisers of the first `n` fields, separated by commas.
pub open spec fn spec_node_field_inits(fcs: Seq<FieldConfigV>, n: nat) -> Result<
    Seq<char>,
    MacroErrorV,
>
    decreases n,
{
    if n == 0 {
        Ok(Seq::empty())
    } else {
        match spec_node_field_inits(fcs, (n - 1) as nat) {
            Err(e) => Err(e),
            Ok(acc) => match spec_node_field_init(fcs[n - 1]) {
                Err(e) => Err(e),
                Ok(s) => Ok(
                    if n == 1 {
                        s
                    } else {
                        acc + " , "@ + s
                    },
                ),
            },
        }
    }
}

/// The `from` method.
pub open spec fn spec_node_from_method(c: NodeConfigV) -> Result<Seq<char>, MacroErrorV> {
    match c.node_type {
        None => Err(spec_missing_node_type()),
        Some(nt) => match spec_node_field_inits(c.attr_fields, c.attr_fields.len()) {
            Err(e) => Err(e),
            Ok(inits) => Ok(
                NODE_FROM_DOC@ + " pub fn from (node : & mf_model :: node :: Node) -> Result < Self , String > { use serde_json :: Value as JsonValue ; if node . r#type != "@
                    + lit(nt)
                    + " { return Err (format ! (\"节点类型不匹配: 期望 '{}', 实际 '{}'\" , "@
                    + lit(nt) + " , node . r#type)) ; } Ok (Self "@ + braced(inits) + ") }"@,
            ),
        },
    }
}

/// The code generated for a Node: an impl block with both methods.
pub open spec fn spec_node_generate(input: SynDeriveInputV, c: NodeConfigV) -> Result<
    Seq<char>,
    MacroErrorV,
> {
    match spec_to_node_method(c) {
        Err(e) => Err(e),
        Ok(t) => match spec_node_from_method(c) {
            Err(e) => Err(e),
            Ok(f) => Ok("impl "@ + input.ident + " { "@ + t + " "@ + f + " }"@),
        },
    }
}

// ------------------------------------------------------------------ code

/// The first position of `c` in `s`.
pub fn first_index(s: &str, c: char) -> (r: Option<usize>)
    ensures
        match r {
            Some(i) => spec_first_index(s@, c, 0) == Some(i as int),
            None => spec_first_index(s@, c, 0) is None,
        },
{
    let n = s.unicode_len();
    let mut i: usize = 0;
    while i < n
        invariant
            n == s@.len(),
            i <= n,
            spec_first_index(s@, c, 0) == spec_first_index(s@, c, i as int),
        decreases n - i,
    {
        if s.get_char(i) == c {
            return Some(i);
        }
        i = i + 1;
    }
    None
}

/// The last position of `c` in `s`.
pub fn last_index(s: &str, c: char) -> (r: Option<usize>)
    ensures
        match r {
            Some(i) => spec_last_index(s@, c, s@.len() as int) == Some(i as int) && i < s@.len(),
            None => spec_last_index(s@, c, s@.len() as int) is None,
        },
{
    let n = s.unicode_len();
    let mut k: usize = n;
    while k > 0
        invariant
            n == s@.len(),
            k <= n,
            spec_last_index(s@, c, n as int) == spec_last_index(s@, c, k as int),
        decreases k,
    {
        if s.get_char(k - 1) == c {
            return Some(k - 1);
        }
        k = k - 1;
    }
    None
}

/// The text between the first `<` and the last `>` of a type name, or
/// `String` when there is no such pair.
pub fn inner_type_name(type_text: &str) -> (r: String)
    ensures
        r@ == spec_inner_type_name(type_text@),
{
    match (first_index(type_text, '<'), last_index(type_text, '>')) {
        (Some(a), Some(b)) => {
            if a < b {
                String::from_str(type_text.substring_char(a + 1, b))
            } else {
                String::from_str("String")
            }
        },
        _ => String::from_str("String"),
    }
}

/// A brace group around `inner`.
pub fn braced_text(inner: &str) -> (r: String)
    ensures
        r@ == braced(inner@),
{
    if inner.unicode_len() == 0 {
        String::from_str("{ }")
    } else {
        let mut s = String::from_str("{ ");
        s.append(inner);
        s.append(" }");
        s
    }
}

/// An optional string as generated code.
pub fn optional_text(o: &Option<String>) -> (r: String)
    ensures
        r@ == spec_optional_text(opt_view(*o)),
{
    match o {
        Some(t) => {
            let mut s = String::from_str("Some (");
            s.append(string_literal(t.as_str()).as_str());
            s.append(" . to_string ())");
            s
        },
        None => String::from_str("None"),
    }
}

/// The code reading a node attribute (see `spec_node_extraction`).
pub fn node_extraction(l: &str, t: &str) -> (r: Option<String>)
    ensures
        opt_view(r) == spec_node_extraction(l@, t@),
{
    let mut get = String::from_str("node . attrs . attrs . get (");
    get.append(l);
    get.append(")");
    let suffix: &str = if str_eq(t, "String") {
        " . and_then (| v | v . as_str ()) . map (| s | s . to_string ()) . unwrap_or_default ()"
    } else if str_eq(t, "i32") {
        " . and_then (| v | v . as_i64 ()) . map (| i | i as i32) . unwrap_or_default ()"
    } else if str_eq(t, "f64") {
        " . and_then (| v | v . as_f64 ()) . unwrap_or_default ()"
    } else if str_eq(t, "bool") {
        " . and_then (| v | v . as_bool ()) . unwrap_or_default ()"
    } else if let Some(x) = numeric_read(t) {
        get.append(x);
        get.append(" . unwrap_or_default ()");
        return Some(get);
    } else if str_eq(t, "serde_json::Value") || str_eq(t, "Value") {
        " . cloned () . unwrap_or (serde_json :: Value :: Null)"
    } else if str_eq(t, "uuid::Uuid") || str_eq(t, "Uuid") {
        " . and_then (| v | v . as_str ()) . and_then (| s | uuid :: Uuid :: parse_str (s) . ok ()) . unwrap_or_else (uuid :: Uuid :: new_v4)"
    } else if str_eq(t, "Vec<u8>") {
        " . and_then (| v | v . as_array ()) . map (| arr | arr . iter () . filter_map (| v | v . as_u64 () . map (| u | u as u8)) . collect ()) . unwrap_or_default ()"
    } else if str_eq(t, "Vec<String>") {
        " . and_then (| v | v . as_array ()) . map (| arr | arr . iter () . filter_map (| v | v . as_str () . map (| s | s . to_string ())) . collect ()) . unwrap_or_default ()"
    } else if starts_with(t, "Option<") {
        let inner = inner_type_name(t);
        let i = inner.as_str();
        if str_eq(i, "String") {
            " . and_then (| v | v . as_str ()) . map (| s | s . to_string ())"
        } else if str_eq(i, "i32") {
            " . and_then (| v | v . as_i64 ()) . map (| i | i as i32)"
        } else if str_eq(i, "f64") {
            " . and_then (| v | v . as_f64 ())"
        } else if str_eq(i, "bool") {
            " . and_then (| v | v . as_bool ())"
        } else if let Some(x) = numeric_read(i) {
            x
        } else if str_eq(i, "serde_json::Value") || str_eq(i, "Value") {
            " . cloned ()"
        } else if str_eq(i, "uuid::Uuid") || str_eq(i, "Uuid") {
            " . and_then (| v | v . as_str ()) . and_then (| s | uuid :: Uuid :: parse_str (s) . ok ())"
        } else {
            return Some(String::from_str("None"));
        }
    } else {
        return None;
    };
    get.append(suffix);
    Some(get)
}

/// Generates the conversion methods of a Node.
pub struct NodeGenerator<'a> {
    input: &'a SynDeriveInput,
    config: &'a NodeConfig,
}

impl<'a> NodeGenerator<'a> {
    /// The derive input the generator reads.
    pub closed spec fn input(&self) -> &'a SynDeriveInput {
        self.input
    }

    /// The configuration the generator reads.
    pub closed spec fn config(&self) -> &'a NodeConfig {
        self.config
    }

    pub fn new(input: &'a SynDeriveInput, config: &'a NodeConfig) -> (r: Self)
        ensures
            r.input() == input,
            r.config() == config,
    {
        NodeGenerator { input, config }
    }

    /// The `to_node` method (see `spec_to_node_method`).
    pub fn generate_to_node_method(&self) -> (r: MacroResult<String>)
        ensures
            string_result_view(r) == spec_to_node_method(self.config()@),
    {
        let node_type = match &self.config.node_type {
            Some(t) => t,
            None => {
                return Err(
                    MacroError::validation_error("Node 配置缺少必需的 node_type 属性", SpanRef::Input),
                );
            },
        };
        let imports = self.generate_imports();
        let spec_code = match self.generate_node_spec_code() {
            Ok(c) => c,
            Err(e) => return Err(e),
        };
        let mut s = String::from_str(TO_NODE_DOC);
        s.append(" pub fn to_node (& self) -> mf_core :: node :: Node { ");
        s.append(imports);
        s.append(" ");
        s.append(spec_code.as_str());
        s.append(" mf_core :: node :: Node :: create (");
        s.append(string_literal(node_type.as_str()).as_str());
        s.append(" , spec) }");
        Ok(s)
    }

    /// The imports the generated methods rely on.
    pub fn generate_imports(&self) -> (r: &'static str)
        ensures
            r@ == "use mf_model :: node_type :: NodeSpec ; use mf_model :: schema :: AttributeSpec ; use std :: collections :: HashMap ; use serde_json :: Value as JsonValue ;"@,
    {
        generate_imports()
    }

    /// The statements building the node specification.
    fn generate_node_spec_code(&self) -> (r: MacroResult<String>)
        ensures
            string_result_view(r) == spec_node_spec_code(self.config()@),
    {
        let content = optional_text(&self.config.content);
        let marks = optional_text(&self.config.marks);
        let attrs_code = match self.generate_attrs_spec_code() {
            Ok(a) => a,
            Err(e) => return Err(e),
        };
        let mut s = attrs_code;
        s.append(" let spec = mf_model :: node_type :: NodeSpec { content : ");
        s.append(content.as_str());
        s.append(" , marks : ");
        s.append(marks.as_str());
        s.append(" , attrs , group : None , desc : None , } ;");
        Ok(s)
    }

    /// The statements building the attribute specification.
    fn generate_attrs_spec_code(&self) -> (r: MacroResult<String>)
        ensures
            string_result_view(r) == spec_node_attrs_code(self.config()@.attr_fields),
    {
        let fields = &self.config.attr_fields;
        let ghost fv = field_configs_view(fields@);
        let n = fields.len();
        if n == 0 {
            return Ok(String::from_str("let attrs = Some (Default :: default ()) ;"));
        }
        let mut setters = String::new();
        let mut i: usize = 0;
        while i < n
            invariant
                n == fields@.len(),
                fv == field_configs_view(fields@),
                fv == self.config()@.attr_fields,
                i <= n,
                spec_node_field_specs(fv, i as nat) == Ok::<Seq<char>, MacroErrorV>(setters@),
            decreases n - i,
        {
            assert(fv[i as int] == fields@[i as int]@);
            match self.generate_field_spec_code(&fields[i]) {
                Ok(x) => {
                    if i > 0 {
                        setters.append(" ");
                    }
                    setters.append(x.as_str());
                    proof {
                        if i == 0 {
                            assert(setters@ =~= x@);
                        }
                    }
                },
                Err(e) => {
                    proof {
                        lemma_node_field_specs_err(fv, (i + 1) as nat, n as nat);
                    }
                    return Err(e);
                },
            }
            i = i + 1;
        }
        let mut s = String::from_str("let mut attrs_map = std :: collections :: HashMap :: new () ; ");
        s.append(setters.as_str());
        s.append(" let attrs = Some (attrs_map) ;");
        Ok(s)
    }

    /// The entry of one `#[attr]` field in the attribute specification.
    fn generate_field_spec_code(&self, field_config: &FieldConfig) -> (r: MacroResult<String>)
        ensures
            string_result_view(r) == spec_node_field_spec(field_config@),
    {
        let name = field_config.name.as_str();
        if !parses_as_ident(name) {
            return Err(
                MacroError::parse_error(
                    concat("无效的字段名称: ", name).as_str(),
                    SpanRef::Field(field_config.field_index),
                ),
            );
        }
        let mut s = String::from_str("attrs_map . insert (");
        s.append(string_literal(name).as_str());
        s.append(
            " . to_string () , mf_model :: schema :: AttributeSpec { default : Some (serde_json :: to_value (& self . ",
        );
        s.append(name);
        s.append(") . unwrap_or (serde_json :: Value :: Null)) }) ;");
        Ok(s)
    }

    /// The `from` method (see `spec_node_from_method`).
    pub fn generate_from_method(&self) -> (r: MacroResult<String>)
        ensures
            string_result_view(r) == spec_node_from_method(self.config()@),
    {
        let node_type = match &self.config.node_type {
            Some(t) => t,
            None => {
                return Err(
                    MacroError::validation_error("Node 配置缺少必需的 node_type 属性", SpanRef::Input),
                );
            },
        };
        let inits = match self.generate_field_initializers() {
            Ok(x) => x,
            Err(e) => return Err(e),
        };
        let l = string_literal(node_type.as_str());
        let mut s = String::from_str(NODE_FROM_DOC);
        s.append(
            " pub fn from (node : & mf_model :: node :: Node) -> Result < Self , String > { use serde_json :: Value as JsonValue ; if node . r#type != ",
        );
        s.append(l.as_str());
        s.append(" { return Err (format ! (\"节点类型不匹配: 期望 '{}', 实际 '{}'\" , ");
        s.append(l.as_str());
        s.append(" , node . r#type)) ; } Ok (Self ");
        s.append(braced_text(inits.as_str()).as_str());
        s.append(") }");
        Ok(s)
    }

    /// The initialisers of the `#[attr]` fields, separated by commas.
    fn generate_field_initializers(&self) -> (r: MacroResult<String>)
        ensures
            string_result_view(r) == spec_node_field_inits(
                self.config()@.attr_fields,
                self.config()@.attr_fields.len(),
            ),
    {
        let fields = &self.config.attr_fields;
        let ghost fv = field_configs_view(fields@);
        let n = fields.len();
        let mut inits = String::new();
        let mut i: usize = 0;
        while i < n
            invariant
                n == fields@.len(),
                fv == field_configs_view(fields@),
                fv == self.config()@.attr_fields,
                i <= n,
                spec_node_field_inits(fv, i as nat) == Ok::<Seq<char>, MacroErrorV>(inits@),
            decreases n - i,
        {
            assert(fv[i as int] == fields@[i as int]@);
            match self.generate_field_initialization(&fields[i]) {
                Ok(x) => {
                    if i > 0 {
                        inits.append(" , ");
                    }
                    inits.append(x.as_str());
                    proof {
                        if i == 0 {
                            assert(inits@ =~= x@);
                        }
                    }
                },
                Err(e) => {
                    proof {
                        lemma_node_field_inits_err(fv, (i + 1) as nat, n as nat);
                    }
                    return Err(e);
                },
            }
            i = i + 1;
        }
        Ok(inits)
    }

    /// The initialiser of one `#[attr]` field.
    fn generate_field_initialization(&self, field_config: &FieldConfig) -> (r: MacroResult<
        String,
    >)
        ensures
            string_result_view(r) == spec_node_field_init(field_config@),
    {
        let name = field_config.name.as_str();
        if !parses_as_ident(name) {
            return Err(
                MacroError::parse_error(
                    concat("无效的字段名称: ", name).as_str(),
                    SpanRef::Field(field_config.field_index),
                ),
            );
        }
        let extraction = match self.generate_field_extraction_code(field_config) {
            Ok(x) => x,
            Err(e) => return Err(e),
        };
        let mut s = String::from_str(name);
        s.append(" : ");
        s.append(extraction.as_str());
        Ok(s)
    }

    /// The code reading one `#[attr]` field back from a node; a type that
    /// nodes cannot read is refused.
    fn generate_field_extraction_code(&self, field_config: &FieldConfig) -> (r: MacroResult<
        String,
    >)
        ensures
            string_result_view(r) == match spec_node_extraction(
                lit(field_config@.name),
                field_config@.type_text,
            ) {
                Some(x) => Ok(x),
                None => Err(
                    MacroErrorV::ValidationError {
                        message: "不支持的字段类型: "@ + field_config@.type_text,
                        span: Some(SpanRef::Input),
                    },
                ),
            },
    {
        let l = string_literal(field_config.name.as_str());
        match node_extraction(l.as_str(), field_config.type_text.as_str()) {
            Some(x) => Ok(x),
            None => Err(
                MacroError::validation_error(
                    concat("不支持的字段类型: ", field_config.type_text.as_str()).as_str(),
                    SpanRef::Input,
                ),
            ),
        }
    }

    /// The text between the first `<` and the last `>` of a type name, or
    /// `String`.
    pub fn extract_option_inner_type(&self, type_text: &str) -> (r: String)
        ensures
            r@ == spec_inner_type_name(type_text@),
    {
        inner_type_name(type_text)
    }
}

impl<'a> CodeGenerator for NodeGenerator<'a> {
    closed spec fn spec_generate(&self) -> Result<Seq<char>, MacroErrorV> {
        spec_node_generate(self.input@, self.config@)
    }

    open spec fn spec_name(&self) -> Seq<char> {
        "NodeGenerator"@
    }

    fn generate(&self) -> (r: MacroResult<String>) {
        let to_node = match self.generate_to_node_method() {
            Ok(x) => x,
            Err(e) => return Err(e),
        };
        let from = match self.generate_from_method() {
            Ok(x) => x,
            Err(e) => return Err(e),
        };
        let mut s = String::from_str("impl ");
        s.append(self.input.ident.as_str());
        s.append(" { ");
        s.append(to_node.as_str());
        s.append(" ");
        s.append(from.as_str());
        s.append(" }");
        Ok(s)
    }

    fn name(&self) -> (r: &'static str) {
        "NodeGenerator"
    }
}

impl<'a> NodeGenerator<'a> {
    /// What `generate` produces: the code of `spec_node_generate` for the
    /// generator's input and configuration.
    pub proof fn lemma_generate(&self)
        ensures
            self.spec_generate() == spec_node_generate(self.input()@, self.config()@),
    {
    }
}

proof fn lemma_node_field_specs_err(fcs: Seq<FieldConfigV>, i: nat, n: nat)
    requires
        i <= n,
        spec_node_field_specs(fcs, i) is Err,
    ensures
        spec_node_field_specs(fcs, n) == spec_node_field_specs(fcs, i),
    decreases n,
{
    if n > i {
        lemma_node_field_specs_err(fcs, i, (n - 1) as nat);
    }
}

proof fn lemma_node_field_inits_err(fcs: Seq<FieldConfigV>, i: nat, n: nat)
    requires
        i <= n,
        spec_node_field_inits(fcs, i) is Err,
    ensures
        spec_node_field_inits(fcs, n) == spec_node_field_inits(fcs, i),
    decreases n,
{
    if n > i {
        lemma_node_field_inits_err(fcs, i, (n - 1) as nat);
    }
}

/// A node reads an attribute `l` of a primitive type as the attribute's
/// JSON value of that kind, and as the type's default when the attribute is
/// absent or of another kind: a `bool` through `as_bool`, a `String`
/// through `as_str`, an `i32` through `as_i64` cast to `i32`, an `f64` through `as_f64`,
/// the other signed integers through `as_i64` and the unsigned ones through
/// `as_u64`, cast to their type where it is not 64 bits wide, and an `f32`
/// through `as_f64` cast to `f32`, each ending in `unwrap_or_default`.
pub proof fn lemma_node_extraction_primitives(l: Seq<char>)
    ensures
        spec_node_extraction(l, "bool"@) == Some(
            "node . attrs . attrs . get ("@ + l + ")"@
                + " . and_then (| v | v . as_bool ()) . unwrap_or_default ()"@,
        ),
        spec_node_extraction(l, "String"@) == Some(
            "node . attrs . attrs . get ("@ + l + ")"@
                + " . and_then (| v | v . as_str ()) . map (| s | s . to_string ()) . unwrap_or_default ()"@,
        ),
        spec_node_extraction(l, "i32"@) == Some(
            "node . attrs . attrs . get ("@ + l + ")"@
                + " . and_then (| v | v . as_i64 ()) . map (| i | i as i32) . unwrap_or_default ()"@,
        ),
        spec_node_extraction(l, "f64"@) == Some(
            "node . attrs . attrs . get ("@ + l + ")"@
                + " . and_then (| v | v . as_f64 ()) . unwrap_or_default ()"@,
        ),
        spec_node_extraction(l, "i64"@) == Some(
            "node . attrs . attrs . get ("@ + l + ")"@ + " . and_then (| v | v . as_i64 ())"@
                + " . unwrap_or_default ()"@,
        ),
        spec_node_extraction(l, "u64"@) == Some(
            "node . attrs . attrs . get ("@ + l + ")"@ + " . and_then (| v | v . as_u64 ())"@
                + " . unwrap_or_default ()"@,
        ),        spec_node_extraction(l, "i8"@) == Some(
            "node . attrs . attrs . get ("@ + l + ")"@
                + " . and_then (| v | v . as_i64 ()) . map (| i | i as i8)"@
                + " . unwrap_or_default ()"@,
        ),
        spec_node_extraction(l, "i16"@) == Some(
            "node . attrs . attrs . get ("@ + l + ")"@
                + " . and_then (| v | v . as_i64 ()) . map (| i | i as i16)"@
                + " . unwrap_or_default ()"@,
        ),
        spec_node_extraction(l, "i128"@) == Some(
            "node . attrs . attrs . get ("@ + l + ")"@
                + " . and_then (| v | v . as_i64 ()) . map (| i | i as i128)"@
                + " . unwrap_or_default ()"@,
        ),
        spec_node_extraction(l, "isize"@) == Some(
            "node . attrs . attrs . get ("@ + l + ")"@
                + " . and_then (| v | v . as_i64 ()) . map (| i | i as isize)"@
                + " . unwrap_or_default ()"@,
        ),
        spec_node_extraction(l, "u8"@) == Some(
            "node . attrs . attrs . get ("@ + l + ")"@
                + " . and_then (| v | v . as_u64 ()) . map (| u | u as u8)"@
                + " . unwrap_or_default ()"@,
        ),
        spec_node_extraction(l, "u16"@) == Some(
            "node . attrs . attrs . get ("@ + l + ")"@
                + " . and_then (| v | v . as_u64 ()) . map (| u | u as u16)"@
                + " . unwrap_or_default ()"@,
        ),
        spec_node_extraction(l, "u32"@) == Some(
            "node . attrs . attrs . get ("@ + l + ")"@
                + " . and_then (| v | v . as_u64 ()) . map (| u | u as u32)"@
                + " . unwrap_or_default ()"@,
        ),
        spec_node_extraction(l, "u128"@) == Some(
            "node . attrs . attrs . get ("@ + l + ")"@
                + " . and_then (| v | v . as_u64 ()) . map (| u | u as u128)"@
                + " . unwrap_or_default ()"@,
        ),
        spec_node_extraction(l, "usize"@) == Some(
            "node . attrs . attrs . get ("@ + l + ")"@
                + " . and_then (| v | v . as_u64 ()) . map (| u | u as usize)"@
                + " . unwrap_or_default ()"@,
        ),
        spec_node_extraction(l, "f32"@) == Some(
            "node . attrs . attrs . get ("@ + l + ")"@
                + " . and_then (| v | v . as_f64 ()) . map (| f | f as f32)"@
                + " . unwrap_or_default ()"@,
        ),
{
    reveal_strlit("bool");
    reveal_strlit("String");
    reveal_strlit("i32");
    reveal_strlit("f64");
    reveal_strlit("i64");
    reveal_strlit("u64");
    reveal_strlit("i8");
    reveal_strlit("i16");
    reveal_strlit("i128");
    reveal_strlit("isize");
    reveal_strlit("u8");
    reveal_strlit("u16");
    reveal_strlit("u32");
    reveal_strlit("u128");
    reveal_strlit("usize");
    reveal_strlit("f32");
    assert("u64"@ != "i8"@ && "u64"@ != "i16"@ && "u64"@ != "i64"@ && "u64"@ != "i128"@);
    assert("u64"@ != "isize"@ && "u64"@ != "u8"@ && "u64"@ != "u16"@ && "u64"@ != "u32"@);
    assert("bool"@.len() == 4 && "String"@.len() == 6 && "i32"@.len() == 3 && "f64"@.len() == 3);
    assert("i64"@.len() == 3 && "u64"@.len() == 3 && "i8"@.len() == 2 && "i16"@.len() == 3);
    assert("i128"@.len() == 4 && "isize"@.len() == 5 && "u8"@.len() == 2 && "u16"@.len() == 3);
    assert("u32"@.len() == 3);
    assert("i32"@[0] == 'i' && "f64"@[0] == 'f' && "u64"@[0] == 'u' && "i64"@[1] == '6');
    assert("i32"@[1] == '3' && "i16"@[1] == '1' && "u16"@[1] == '1' && "u32"@[1] == '3');
    assert("u64"@[1] == '6');
    assert("bool"@ != "String"@ && "bool"@ != "i32"@ && "bool"@ != "f64"@);
    assert("i32"@ != "String"@);
    assert("f64"@ != "String"@ && "f64"@ != "i32"@);
    assert("i64"@ != "String"@ && "i64"@ != "i32"@ && "i64"@ != "f64"@ && "i64"@ != "bool"@);
    assert("i64"@ != "i8"@ && "i64"@ != "i16"@);
    assert("u64"@ != "String"@ && "u64"@ != "i32"@ && "u64"@ != "f64"@ && "u64"@ != "bool"@);
}

proof fn lemma_option_inner_name(x: Seq<char>)
    ensures
        spec_inner_type_name("Option<"@ + x + ">"@) == x,
        ("Option<"@ + x + ">"@)[0] == 'O',
        spec_starts_with("Option<"@ + x + ">"@, "Option<"@),
{
    reveal_strlit("Option<");
    reveal_strlit(">");
    let t = "Option<"@ + x + ">"@;
    assert(t[0] == 'O' && t[1] == 'p' && t[2] == 't' && t[3] == 'i' && t[4] == 'o' && t[5] == 'n');
    assert(t[6] == '<');
    assert(spec_first_index(t, '<', 6) == Some(6int));
    assert(spec_first_index(t, '<', 5) == Some(6int));
    assert(spec_first_index(t, '<', 4) == Some(6int));
    assert(spec_first_index(t, '<', 3) == Some(6int));
    assert(spec_first_index(t, '<', 2) == Some(6int));
    assert(spec_first_index(t, '<', 1) == Some(6int));
    assert(spec_first_index(t, '<', 0) == Some(6int));
    assert(t[t.len() - 1] == '>');
    assert(spec_last_index(t, '>', t.len() as int) == Some(t.len() - 1));
    assert(t.subrange(7, t.len() - 1) =~= x);
    assert(t.subrange(0, 7) =~= "Option<"@);
}

/// A node reads an attribute `l` of type `Option<T>`, for `T` one of
/// `bool`, `String`, `i32` and `f64`, as the attribute's JSON value of that
/// kind, and as `None` when the attribute is absent or of another kind.
pub proof fn lemma_node_extraction_optional(l: Seq<char>, x: Seq<char>)
    ensures
        x == "bool"@ ==> spec_node_extraction(l, "Option<"@ + x + ">"@) == Some(
            "node . attrs . attrs . get ("@ + l + ")"@ + " . and_then (| v | v . as_bool ())"@,
        ),
        x == "String"@ ==> spec_node_extraction(l, "Option<"@ + x + ">"@) == Some(
            "node . attrs . attrs . get ("@ + l + ")"@
                + " . and_then (| v | v . as_str ()) . map (| s | s . to_string ())"@,
        ),
        x == "i32"@ ==> spec_node_extraction(l, "Option<"@ + x + ">"@) == Some(
            "node . attrs . attrs . get ("@ + l + ")"@
                + " . and_then (| v | v . as_i64 ()) . map (| i | i as i32)"@,
        ),
        x == "f64"@ ==> spec_node_extraction(l, "Option<"@ + x + ">"@) == Some(
            "node . attrs . attrs . get ("@ + l + ")"@ + " . and_then (| v | v . as_f64 ())"@,
        ),
{
    lemma_option_inner_name(x);
    let t = "Option<"@ + x + ">"@;
    reveal_strlit("bool");
    reveal_strlit("String");
    reveal_strlit("i32");
    reveal_strlit("f64");
    reveal_strlit("i8");
    reveal_strlit("i16");
    reveal_strlit("i64");
    reveal_strlit("i128");
    reveal_strlit("isize");
    reveal_strlit("u8");
    reveal_strlit("u16");
    reveal_strlit("u32");
    reveal_strlit("u64");
    reveal_strlit("u128");
    reveal_strlit("usize");
    reveal_strlit("f32");
    reveal_strlit("serde_json::Value");
    reveal_strlit("Value");
    reveal_strlit("uuid::Uuid");
    reveal_strlit("Uuid");
    reveal_strlit("Vec<u8>");
    reveal_strlit("Vec<String>");
    assert(t != "String"@ && t != "i32"@ && t != "f64"@ && t != "bool"@);
    assert(spec_numeric_read(t) is None) by {
        assert(t != "i8"@ && t != "i16"@ && t != "i64"@ && t != "i128"@ && t != "isize"@);
        assert(t != "u8"@ && t != "u16"@ && t != "u32"@ && t != "u64"@ && t != "u128"@);
        assert(t != "usize"@ && t != "f32"@);
    }
    assert(t != "serde_json::Value"@ && t != "Value"@ && t != "uuid::Uuid"@ && t != "Uuid"@);
    assert(t != "Vec<u8>"@ && t != "Vec<String>"@);
    assert("bool"@.len() == 4 && "String"@.len() == 6 && "i32"@.len() == 3 && "f64"@.len() == 3);
    assert("i32"@[0] == 'i' && "f64"@[0] == 'f');
    assert("bool"@ != "String"@ && "bool"@ != "i32"@ && "bool"@ != "f64"@);
    assert("i32"@ != "String"@ && "f64"@ != "String"@ && "f64"@ != "i32"@);
}

} // verus!
