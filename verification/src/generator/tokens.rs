//! Token texts of literals, and whether a text reads as an identifier or a
//! type.

use vstd::prelude::*;
use vstd::string::*;
use crate::text::{push_char, spec_decimal};

verus! {

/// Whether `s` reads as a single identifier.
pub uninterp spec fn spec_parses_as_ident(s: Seq<char>) -> bool;

/// Whether `s` reads as a type.
pub uninterp spec fn spec_parses_as_type(s: Seq<char>) -> bool;

/// A character as it is written inside a string literal: `"` and `\`
/// take a backslash, tab, newline and carriage return are written `\t`,
/// `\n` and `\r`; every other character stands as itself.
pub open spec fn spec_escape_char(c: char) -> Seq<char> {
    if c == '"' {
        seq!['\\', '"']
    } else if c == '\\' {
        seq!['\\', '\\']
    } else if c == '\t' {
        seq!['\\', 't']
    } else if c == '\n' {
        seq!['\\', 'n']
    } else if c == '\r' {
        seq!['\\', 'r']
    } else {
        seq![c]
    }
}

/// The characters of `s` as written inside a string literal.
pub open spec fn spec_escape(s: Seq<char>) -> Seq<char>
    decreases s.len(),
{
    if s.len() == 0 {
        Seq::empty()
    } else {
        spec_escape(s.drop_last()) + spec_escape_char(s.last())
    }
}

/// The token text of a string literal whose value is `s`: a double quote,
/// the escaped characters, a double quote.
pub open spec fn spec_string_literal(s: Seq<char>) -> Seq<char> {
    seq!['"'] + spec_escape(s) + seq!['"']
}

/// The token text of the string literal whose value is `s` (see
/// `spec_string_literal`).
pub fn string_literal(s: &str) -> (r: String)
    ensures
        r@ == spec_string_literal(s@),
{
    let n = s.unicode_len();
    let mut r = String::new();
    push_char(&mut r, '"');
    let mut i: usize = 0;
    while i < n
        invariant
            n == s@.len(),
            i <= n,
            r@ == seq!['"'] + spec_escape(s@.take(i as int)),
        decreases n - i,
    {
        let c = s.get_char(i);
        let ghost before = r@;
        if c == '"' {
            push_char(&mut r, '\\');
            push_char(&mut r, '"');
        } else if c == '\\' {
            push_char(&mut r, '\\');
            push_char(&mut r, '\\');
        } else if c == '\t' {
            push_char(&mut r, '\\');
            push_char(&mut r, 't');
        } else if c == '\n' {
            push_char(&mut r, '\\');
            push_char(&mut r, 'n');
        } else if c == '\r' {
            push_char(&mut r, '\\');
            push_char(&mut r, 'r');
        } else {
            push_char(&mut r, c);
        }
        proof {
            let t = s@.take(i + 1);
            assert(t.drop_last() =~= s@.take(i as int));
            assert(t.last() == c);
            assert(r@ =~= before + spec_escape_char(c));
        }
        i = i + 1;
    }
    assert(s@.take(n as int) =~= s@);
    push_char(&mut r, '"');
    r
}

/// The token text of the `i64`-suffixed integer literal of `v`: its
/// decimal digits, after a `-` when negative, then `i64`.
pub open spec fn spec_i64_literal(v: i64) -> Seq<char> {
    (if v < 0 {
        seq!['-'] + spec_decimal((-(v as int)) as nat)
    } else {
        spec_decimal(v as nat)
    }) + "i64"@
}

/// `proc_macro2::Literal::i64_suffixed(v)`, written out: the number as
/// `i64`'s `Display` writes it, followed by the suffix `i64`.
#[verifier::external_body]
pub(crate) fn i64_literal(v: i64) -> (r: String)
    ensures
        r@ == spec_i64_literal(v),
{
    proc_macro2::Literal::i64_suffixed(v).to_string()
}

/// Whether `syn::parse_str::<syn::Ident>(s)` succeeds. The contract names
/// the outcome; which texts are identifiers is syn's rule and not stated.
#[verifier::external_body]
pub(crate) fn parses_as_ident(s: &str) -> (r: bool)
    ensures
        r == spec_parses_as_ident(s@),
{
    syn::parse_str::<syn::Ident>(s).is_ok()
}

/// Whether `syn::parse_str::<syn::Type>(s)` succeeds. The contract names
/// the outcome; which texts are types is syn's rule and not stated.
#[verifier::external_body]
pub(crate) fn parses_as_type(s: &str) -> (r: bool)
    ensures
        r == spec_parses_as_type(s@),
{
    syn::parse_str::<syn::Type>(s).is_ok()
}

} // verus!
