//! A plain model of the derive-macro input: the parts of a `syn::DeriveInput`
//! that the parsers read, held as strings, vectors and enums.
//!
//! Each type has a ghost view (`...V`) over which the specifications are
//! written, and a `duplicate` method that copies it with the same view.

use vstd::prelude::*;
use vstd::string::*;

verus! {

broadcast use vstd::std_specs::vec::group_vec_axioms;

/// Where an error points in the macro input.
#[derive(PartialEq, Eq, Structural, Clone, Copy, Debug)]
pub enum SpanRef {
    /// The whole derive input.
    Input,
    /// The struct-level attribute with this index.
    StructAttr(usize),
    /// The named field with this index.
    Field(usize),
    /// The type of the named field with this index.
    FieldType(usize),
    /// An attribute of a named field: the field's index, then the attribute's.
    FieldAttr(usize, usize),
    /// The value of a `default = ..` argument on the named field with this index.
    DefaultValue(usize),
    /// The place the macro was invoked from.
    CallSite,
}

/// A literal, as `syn::Lit` distinguishes it.
#[derive(Debug)]
pub enum SynLit {
    /// A string literal, by its value.
    Str(String),
    /// An integer literal, by its base-10 digits.
    Int(String),
    /// A float literal, by its base-10 digits.
    Float(String),
    /// A boolean literal.
    Bool(bool),
    /// Any other literal, by its token text.
    Other(String),
}

/// An expression, as far as default values are read from it.
#[derive(Debug)]
pub enum SynExpr {
    /// A literal expression.
    Lit(SynLit),
    /// A path expression: its single identifier if it is one, and its token text.
    Path { ident: Option<String>, tokens: String },
    /// A unary expression: whether the operator is `-`, its operand, its token text.
    Unary { is_neg: bool, expr: Box<SynExpr>, tokens: String },
    /// Any other expression, by its token text.
    Other { tokens: String },
}

/// One argument inside `#[attr(...)]`.
#[derive(Debug)]
pub enum SynNestedMeta {
    /// `name = value`: the single identifier of the name (if it is one), the
    /// value, and, when the text taken from the value parses as a finite `f64`,
    /// that number written as a suffixed literal.
    NameValue { path_ident: Option<String>, value: SynExpr, float_literal: Option<String> },
    /// A bare path or a nested list.
    Other,
}

/// The shape of an attribute.
#[derive(Debug)]
pub enum SynMeta {
    /// `#[name]`.
    Path,
    /// `#[name(...)]`, with its arguments parsed as a comma-separated list of
    /// metas, or the parser's error message.
    List(Result<Vec<SynNestedMeta>, String>),
    /// `#[name = value]`.
    NameValue(SynExpr),
}

/// An attribute: the single identifier of its path (if it is one) and its shape.
#[derive(Debug)]
pub struct SynAttribute {
    pub path_ident: Option<String>,
    pub meta: SynMeta,
}

/// A generic argument of a path segment.
#[derive(Debug)]
pub enum SynGenericArgument {
    Type(SynType),
    Other,
}

/// The arguments of a path segment.
#[derive(Debug)]
pub enum SynPathArguments {
    Bare,
    AngleBracketed(Vec<SynGenericArgument>),
    Parenthesized,
}

/// A path segment.
#[derive(Debug)]
pub struct SynPathSegment {
    pub ident: String,
    pub arguments: SynPathArguments,
}

/// The kind of a type.
#[derive(Debug)]
pub enum SynTypeKind {
    /// A path type such as `std::option::Option<String>`.
    Path(Vec<SynPathSegment>),
    /// The unit type `()`.
    UnitTuple,
    /// Any other type (references, arrays, ...).
    Other,
}

/// A type: its token text (as the token printer writes it) and its kind.
#[derive(Debug)]
pub struct SynType {
    pub tokens: String,
    pub kind: SynTypeKind,
}

/// A struct field.
#[derive(Debug)]
pub struct SynField {
    pub ident: Option<String>,
    pub ty: SynType,
    pub attrs: Vec<SynAttribute>,
}

/// The fields of a struct.
#[derive(Debug)]
pub enum SynFields {
    Named(Vec<SynField>),
    Unnamed,
    Unit,
}

/// The body of the derive input.
#[derive(Debug)]
pub enum SynData {
    Struct(SynFields),
    Enum,
    Union,
}

/// The derive input.
#[derive(Debug)]
pub struct SynDeriveInput {
    pub ident: String,
    pub attrs: Vec<SynAttribute>,
    pub data: SynData,
}

// ---------------------------------------------------------------- views

pub ghost enum SynLitV {
    Str(Seq<char>),
    Int(Seq<char>),
    Float(Seq<char>),
    Bool(bool),
    Other(Seq<char>),
}

pub ghost enum SynExprV {
    Lit(SynLitV),
    Path { ident: Option<Seq<char>>, tokens: Seq<char> },
    Unary { is_neg: bool, expr: Box<SynExprV>, tokens: Seq<char> },
    Other { tokens: Seq<char> },
}

pub ghost enum SynNestedMetaV {
    NameValue { path_ident: Option<Seq<char>>, value: SynExprV, float_literal: Option<Seq<char>> },
    Other,
}

pub ghost enum SynMetaV {
    Path,
    List(Result<Seq<SynNestedMetaV>, Seq<char>>),
    NameValue(SynExprV),
}

pub ghost struct SynAttributeV {
    pub path_ident: Option<Seq<char>>,
    pub meta: SynMetaV,
}

pub ghost enum SynGenericArgumentV {
    Type(SynTypeV),
    Other,
}

pub ghost enum SynPathArgumentsV {
    Bare,
    AngleBracketed(Seq<SynGenericArgumentV>),
    Parenthesized,
}

pub ghost struct SynPathSegmentV {
    pub ident: Seq<char>,
    pub arguments: SynPathArgumentsV,
}

pub ghost enum SynTypeKindV {
    Path(Seq<SynPathSegmentV>),
    UnitTuple,
    Other,
}

pub ghost struct SynTypeV {
    pub tokens: Seq<char>,
    pub kind: SynTypeKindV,
}

pub ghost struct SynFieldV {
    pub ident: Option<Seq<char>>,
    pub ty: SynTypeV,
    pub attrs: Seq<SynAttributeV>,
}

pub ghost enum SynFieldsV {
    Named(Seq<SynFieldV>),
    Unnamed,
    Unit,
}

pub ghost enum SynDataV {
    Struct(SynFieldsV),
    Enum,
    Union,
}

pub ghost struct SynDeriveInputV {
    pub ident: Seq<char>,
    pub attrs: Seq<SynAttributeV>,
    pub data: SynDataV,
}

/// The view of an optional string.
pub open spec fn opt_view(o: Option<String>) -> Option<Seq<char>> {
    match o {
        Some(s) => Some(s@),
        None => None,
    }
}

pub open spec fn lit_view(l: SynLit) -> SynLitV {
    match l {
        SynLit::Str(s) => SynLitV::Str(s@),
        SynLit::Int(s) => SynLitV::Int(s@),
        SynLit::Float(s) => SynLitV::Float(s@),
        SynLit::Bool(b) => SynLitV::Bool(b),
        SynLit::Other(s) => SynLitV::Other(s@),
    }
}

pub open spec fn expr_view(e: SynExpr) -> SynExprV
    decreases e,
{
    match e {
        SynExpr::Lit(l) => SynExprV::Lit(lit_view(l)),
        SynExpr::Path { ident, tokens } => SynExprV::Path { ident: opt_view(ident), tokens: tokens@ },
        SynExpr::Unary { is_neg, expr, tokens } => SynExprV::Unary {
            is_neg,
            expr: Box::new(expr_view(*expr)),
            tokens: tokens@,
        },
        SynExpr::Other { tokens } => SynExprV::Other { tokens: tokens@ },
    }
}

pub open spec fn nested_meta_view(m: SynNestedMeta) -> SynNestedMetaV {
    match m {
        SynNestedMeta::NameValue { path_ident, value, float_literal } => SynNestedMetaV::NameValue {
            path_ident: opt_view(path_ident),
            value: expr_view(value),
            float_literal: opt_view(float_literal),
        },
        SynNestedMeta::Other => SynNestedMetaV::Other,
    }
}

/// The view of the parsed arguments of `#[name(...)]`.
pub open spec fn meta_list_view(l: Result<Vec<SynNestedMeta>, String>) -> Result<
    Seq<SynNestedMetaV>,
    Seq<char>,
> {
    match l {
        Ok(v) => Ok(v@.map_values(|n: SynNestedMeta| nested_meta_view(n))),
        Err(e) => Err(e@),
    }
}

pub open spec fn meta_view(m: SynMeta) -> SynMetaV {
    match m {
        SynMeta::Path => SynMetaV::Path,
        SynMeta::List(l) => SynMetaV::List(meta_list_view(l)),
        SynMeta::NameValue(e) => SynMetaV::NameValue(expr_view(e)),
    }
}

pub open spec fn attr_view(a: SynAttribute) -> SynAttributeV {
    SynAttributeV { path_ident: opt_view(a.path_ident), meta: meta_view(a.meta) }
}

pub open spec fn attrs_view(v: Seq<SynAttribute>) -> Seq<SynAttributeV> {
    v.map_values(|a: SynAttribute| attr_view(a))
}

pub open spec fn type_view(t: SynType) -> SynTypeV
    decreases t, 0nat,
{
    SynTypeV {
        tokens: t.tokens@,
        kind: match t.kind {
            SynTypeKind::Path(segs) => SynTypeKindV::Path(
                Seq::new(
                    segs@.len(),
                    |i: int|
                        if 0 <= i < segs@.len() {
                            segment_view(segs@[i])
                        } else {
                            vstd::pervasive::arbitrary()
                        },
                ),
            ),
            SynTypeKind::UnitTuple => SynTypeKindV::UnitTuple,
            SynTypeKind::Other => SynTypeKindV::Other,
        },
    }
}

pub open spec fn segment_view(s: SynPathSegment) -> SynPathSegmentV
    decreases s, 1nat,
{
    SynPathSegmentV {
        ident: s.ident@,
        arguments: match s.arguments {
            SynPathArguments::Bare => SynPathArgumentsV::Bare,
            SynPathArguments::AngleBracketed(args) => SynPathArgumentsV::AngleBracketed(
                Seq::new(
                    args@.len(),
                    |i: int|
                        if 0 <= i < args@.len() {
                            generic_arg_view(args@[i])
                        } else {
                            vstd::pervasive::arbitrary()
                        },
                ),
            ),
            SynPathArguments::Parenthesized => SynPathArgumentsV::Parenthesized,
        },
    }
}

pub open spec fn generic_arg_view(g: SynGenericArgument) -> SynGenericArgumentV
    decreases g, 2nat,
{
    match g {
        SynGenericArgument::Type(t) => SynGenericArgumentV::Type(type_view(t)),
        SynGenericArgument::Other => SynGenericArgumentV::Other,
    }
}

pub open spec fn field_view(f: SynField) -> SynFieldV {
    SynFieldV { ident: opt_view(f.ident), ty: type_view(f.ty), attrs: attrs_view(f.attrs@) }
}

pub open spec fn fields_view(v: Seq<SynField>) -> Seq<SynFieldV> {
    v.map_values(|f: SynField| field_view(f))
}

pub open spec fn data_view(d: SynData) -> SynDataV {
    match d {
        SynData::Struct(SynFields::Named(v)) => SynDataV::Struct(SynFieldsV::Named(fields_view(v@))),
        SynData::Struct(SynFields::Unnamed) => SynDataV::Struct(SynFieldsV::Unnamed),
        SynData::Struct(SynFields::Unit) => SynDataV::Struct(SynFieldsV::Unit),
        SynData::Enum => SynDataV::Enum,
        SynData::Union => SynDataV::Union,
    }
}

impl View for SynType {
    type V = SynTypeV;

    open spec fn view(&self) -> SynTypeV {
        type_view(*self)
    }
}

impl View for SynField {
    type V = SynFieldV;

    open spec fn view(&self) -> SynFieldV {
        field_view(*self)
    }
}

impl View for SynAttribute {
    type V = SynAttributeV;

    open spec fn view(&self) -> SynAttributeV {
        attr_view(*self)
    }
}

impl View for SynExpr {
    type V = SynExprV;

    open spec fn view(&self) -> SynExprV {
        expr_view(*self)
    }
}

impl View for SynDeriveInput {
    type V = SynDeriveInputV;

    open spec fn view(&self) -> SynDeriveInputV {
        SynDeriveInputV {
            ident: self.ident@,
            attrs: attrs_view(self.attrs@),
            data: data_view(self.data),
        }
    }
}

// ---------------------------------------------------------------- copies

/// Copies an optional string.
pub fn duplicate_opt(o: &Option<String>) -> (r: Option<String>)
    ensures
        opt_view(r) == opt_view(*o),
{
    match o {
        Some(s) => Some(s.clone()),
        None => None,
    }
}

impl SynLit {
    pub fn duplicate(&self) -> (r: SynLit)
        ensures
            lit_view(r) == lit_view(*self),
    {
        match self {
            SynLit::Str(s) => SynLit::Str(s.clone()),
            SynLit::Int(s) => SynLit::Int(s.clone()),
            SynLit::Float(s) => SynLit::Float(s.clone()),
            SynLit::Bool(b) => SynLit::Bool(*b),
            SynLit::Other(s) => SynLit::Other(s.clone()),
        }
    }
}

impl SynExpr {
    pub fn duplicate(&self) -> (r: SynExpr)
        ensures
            r@ == self@,
        decreases self,
    {
        match self {
            SynExpr::Lit(l) => SynExpr::Lit(l.duplicate()),
            SynExpr::Path { ident, tokens } => SynExpr::Path {
                ident: duplicate_opt(ident),
                tokens: tokens.clone(),
            },
            SynExpr::Unary { is_neg, expr, tokens } => {
                let inner = (**expr).duplicate();
                SynExpr::Unary { is_neg: *is_neg, expr: Box::new(inner), tokens: tokens.clone() }
            },
            SynExpr::Other { tokens } => SynExpr::Other { tokens: tokens.clone() },
        }
    }
}

impl SynNestedMeta {
    pub fn duplicate(&self) -> (r: SynNestedMeta)
        ensures
            nested_meta_view(r) == nested_meta_view(*self),
    {
        match self {
            SynNestedMeta::NameValue { path_ident, value, float_literal } => SynNestedMeta::NameValue {
                path_ident: duplicate_opt(path_ident),
                value: value.duplicate(),
                float_literal: duplicate_opt(float_literal),
            },
            SynNestedMeta::Other => SynNestedMeta::Other,
        }
    }
}

impl SynMeta {
    pub fn duplicate(&self) -> (r: SynMeta)
        ensures
            meta_view(r) == meta_view(*self),
    {
        match self {
            SynMeta::Path => SynMeta::Path,
            SynMeta::List(Ok(v)) => {
                let mut out: Vec<SynNestedMeta> = Vec::new();
                let mut i: usize = 0;
                while i < v.len()
                    invariant
                        i <= v@.len(),
                        out@.len() == i,
                        forall|j: int|
                            0 <= j < i ==> nested_meta_view(#[trigger] out@[j]) == nested_meta_view(
                                v@[j],
                            ),
                    decreases v@.len() - i,
                {
                    out.push(v[i].duplicate());
                    i = i + 1;
                }
                assert(out@.map_values(|n: SynNestedMeta| nested_meta_view(n)) =~= v@.map_values(
                    |n: SynNestedMeta| nested_meta_view(n),
                ));
                SynMeta::List(Ok(out))
            },
            SynMeta::List(Err(e)) => SynMeta::List(Err(e.clone())),
            SynMeta::NameValue(e) => SynMeta::NameValue(e.duplicate()),
        }
    }
}

impl SynAttribute {
    pub fn duplicate(&self) -> (r: SynAttribute)
        ensures
            r@ == self@,
    {
        SynAttribute { path_ident: duplicate_opt(&self.path_ident), meta: self.meta.duplicate() }
    }
}

/// Copies a list of attributes.
pub fn duplicate_attrs(v: &Vec<SynAttribute>) -> (r: Vec<SynAttribute>)
    ensures
        attrs_view(r@) == attrs_view(v@),
{
    let mut out: Vec<SynAttribute> = Vec::new();
    let mut i: usize = 0;
    while i < v.len()
        invariant
            i <= v@.len(),
            out@.len() == i,
            forall|j: int| 0 <= j < i ==> (#[trigger] out@[j])@ == v@[j]@,
        decreases v@.len() - i,
    {
        out.push(v[i].duplicate());
        i = i + 1;
    }
    assert(attrs_view(out@) =~= attrs_view(v@));
    out
}

impl SynType {
    #[verifier::loop_isolation(false)]
    pub fn duplicate(&self) -> (r: SynType)
        ensures
            r@ == self@,
        decreases self, 0nat,
    {
        let kind = match &self.kind {
            SynTypeKind::Path(segs) => {
                let mut out: Vec<SynPathSegment> = Vec::new();
                let mut i: usize = 0;
                while i < segs.len()
                    invariant
                        i <= segs@.len(),
                        out@.len() == i,
                        forall|j: int|
                            0 <= j < i ==> segment_view(#[trigger] out@[j]) == segment_view(segs@[j]),
                    decreases segs@.len() - i,
                {
                    out.push(segs[i].duplicate());
                    i = i + 1;
                }
                proof {
                    let a = Seq::new(
                        out@.len(),
                        |i: int|
                            if 0 <= i < out@.len() {
                                segment_view(out@[i])
                            } else {
                                vstd::pervasive::arbitrary()
                            },
                    );
                    let b = Seq::new(
                        segs@.len(),
                        |i: int|
                            if 0 <= i < segs@.len() {
                                segment_view(segs@[i])
                            } else {
                                vstd::pervasive::arbitrary()
                            },
                    );
                    assert(a =~= b);
                }
                SynTypeKind::Path(out)
            },
            SynTypeKind::UnitTuple => SynTypeKind::UnitTuple,
            SynTypeKind::Other => SynTypeKind::Other,
        };
        let r = SynType { tokens: self.tokens.clone(), kind };
        proof {
            if self.kind is Path {
                assert(type_view(r).kind->Path_0 =~= type_view(*self).kind->Path_0);
            }
        }
        r
    }
}

impl SynPathSegment {
    #[verifier::loop_isolation(false)]
    pub fn duplicate(&self) -> (r: SynPathSegment)
        ensures
            segment_view(r) == segment_view(*self),
        decreases self, 1nat,
    {
        let arguments = match &self.arguments {
            SynPathArguments::Bare => SynPathArguments::Bare,
            SynPathArguments::AngleBracketed(args) => {
                let mut out: Vec<SynGenericArgument> = Vec::new();
                let mut i: usize = 0;
                while i < args.len()
                    invariant
                        i <= args@.len(),
                        out@.len() == i,
                        forall|j: int|
                            0 <= j < i ==> generic_arg_view(#[trigger] out@[j]) == generic_arg_view(
                                args@[j],
                            ),
                    decreases args@.len() - i,
                {
                    out.push(args[i].duplicate());
                    i = i + 1;
                }
                proof {
                    let a = Seq::new(
                        out@.len(),
                        |i: int|
                            if 0 <= i < out@.len() {
                                generic_arg_view(out@[i])
                            } else {
                                vstd::pervasive::arbitrary()
                            },
                    );
                    let b = Seq::new(
                        args@.len(),
                        |i: int|
                            if 0 <= i < args@.len() {
                                generic_arg_view(args@[i])
                            } else {
                                vstd::pervasive::arbitrary()
                            },
                    );
                    assert(a =~= b);
                }
                SynPathArguments::AngleBracketed(out)
            },
            SynPathArguments::Parenthesized => SynPathArguments::Parenthesized,
        };
        let r = SynPathSegment { ident: self.ident.clone(), arguments };
        proof {
            if self.arguments is AngleBracketed {
                assert(segment_view(r).arguments->AngleBracketed_0 =~= segment_view(
                    *self,
                ).arguments->AngleBracketed_0);
            }
        }
        r
    }
}

impl SynGenericArgument {
    pub fn duplicate(&self) -> (r: SynGenericArgument)
        ensures
            generic_arg_view(r) == generic_arg_view(*self),
        decreases self, 2nat,
    {
        match self {
            SynGenericArgument::Type(t) => SynGenericArgument::Type(t.duplicate()),
            SynGenericArgument::Other => SynGenericArgument::Other,
        }
    }
}

impl SynField {
    pub fn duplicate(&self) -> (r: SynField)
        ensures
            r@ == self@,
    {
        SynField {
            ident: duplicate_opt(&self.ident),
            ty: self.ty.duplicate(),
            attrs: duplicate_attrs(&self.attrs),
        }
    }
}

} // verus!
