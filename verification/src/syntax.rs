//! The surface syntax, read with `syn`.
//!
//! Everything in this module is trusted: the functions below hand text to
//! `syn` and `proc-macro2` and give back what they found as plain values.
//! What the two make of a given text is not written out here; it is
//! referred to by name.
//!
//! The names stand for functions of the text alone. That rests on how this
//! crate is built: `proc-macro2` without its `proc-macro` feature, so that
//! it lexes and prints by its own code wherever it runs. A build that turns
//! the feature on, for this crate or for another one in the same build,
//! hands both to the compiler inside a procedural macro, where the same
//! tokens may print with other spaces.
//!
//! `syn` reads by recursive descent: on a text that is nested deeper than
//! the stack of the thread allows, it runs out of stack as any recursive
//! reader does.
use vstd::prelude::*;
use quote::ToTokens;
use syn::parse::Parser;
use syn::punctuated::Punctuated;
use syn::token::Comma;
use syn::{Expr, Lit, LitStr, Meta, MetaNameValue};
use crate::clause::Shape::{List, NameValue, Word};
use crate::clause::Value::{Bool, Expression, OtherLiteral, Str};
use crate::clause::{clauses_outcome, Clause, ClauseView};
use crate::text::{list_outcome, text_outcome};

verus! {

/// What `syn` makes of a text read as a comma-separated list of attribute
/// arguments: the clauses in order, or the message of its syntax error.
pub uninterp spec fn meta_list(text: Seq<char>) -> Result<Seq<ClauseView>, Seq<char>>;

/// What `syn` makes of a text read as a comma-separated list of string
/// literals: the strings that they denote, in order, or the message of its
/// syntax error.
pub uninterp spec fn string_list(tokens: Seq<char>) -> Result<Seq<Seq<char>>, Seq<char>>;

/// What `syn` makes of a string literal, given as it is written, when it
/// reads what the literal denotes as a Rust path: the tokens of the path,
/// as text, or the message of its error.
pub uninterp spec fn rust_path(literal: Seq<char>) -> Result<Seq<char>, Seq<char>>;

/// The string literal that `proc-macro2` writes for a text.
pub uninterp spec fn string_literal(text: Seq<char>) -> Seq<char>;

/// The outcome of reading a text that holds no clause.
pub open spec fn no_clauses() -> Result<Seq<ClauseView>, Seq<char>> {
    Ok(Seq::empty())
}

/// The clauses in a text: none in a text without any character, and else
/// what `syn` makes of the text.
pub open spec fn clauses_in(text: Seq<char>) -> Result<Seq<ClauseView>, Seq<char>> {
    if text.len() == 0 {
        no_clauses()
    } else {
        meta_list(text)
    }
}

/// Reads a clause list.
///
/// Trusted: calls `Punctuated::<Meta, Comma>::parse_terminated` of `syn`
/// through `Parser::parse_str`, and copies out of each `Meta` its name
/// (`Path::get_ident`), its form, the tokens of a list and the literal of a
/// value (`LitStr::value` and `LitStr::suffix`, or the `value` of a
/// `LitBool`). The contract names the outcome, and says of it that a text
/// without any character holds no clause.
#[verifier::external_body]
pub(crate) fn parse_meta_list(text: &str) -> (r: Result<Vec<Clause>, String>)
    ensures
        clauses_outcome(r) == meta_list(text@),
        text@.len() == 0 ==> clauses_outcome(r) == no_clauses(),
{
    let parsed = Punctuated::<Meta, Comma>::parse_terminated.parse_str(text);
    Ok(parsed.map_err(|e| e.to_string())?.into_iter().map(|meta| Clause {
        name: meta.path().get_ident().map(ToString::to_string),
        shape: match meta {
            Meta::Path(_) => Word,
            Meta::List(list) => List(list.tokens.to_string()),
            Meta::NameValue(MetaNameValue { value: Expr::Lit(e), .. }) => NameValue(match e.lit {
                Lit::Str(s) => Str { value: s.value(), suffix: s.suffix().to_string() },
                Lit::Bool(b) => Bool(b.value),
                _ => OtherLiteral,
            }),
            Meta::NameValue(_) => NameValue(Expression),
        },
    }).collect())
}

/// The outcome of reading a text that holds no string literal.
pub open spec fn no_items() -> Result<Seq<Seq<char>>, Seq<char>> {
    Ok(Seq::empty())
}

/// The string literals in a text: none in a text without any character,
/// and else what `syn` makes of the text.
pub open spec fn items_in(tokens: Seq<char>) -> Result<Seq<Seq<char>>, Seq<char>> {
    if tokens.len() == 0 {
        no_items()
    } else {
        string_list(tokens)
    }
}

/// Reads the inside of a list clause as string literals.
///
/// Trusted: calls `Punctuated::<LitStr, Comma>::parse_terminated` of `syn`
/// through `Parser::parse_str`, and takes `LitStr::value` of each literal.
/// The contract names the outcome, and says of it that a text without any
/// character holds no item.
#[verifier::external_body]
pub(crate) fn parse_string_list(tokens: &str) -> (r: Result<Vec<String>, String>)
    ensures
        list_outcome(r) == string_list(tokens@),
        tokens@.len() == 0 ==> list_outcome(r) == no_items(),
{
    match Punctuated::<LitStr, Comma>::parse_terminated.parse_str(tokens) {
        Ok(list) => Ok(list.into_iter().map(|literal| literal.value()).collect()),
        Err(e) => Err(e.to_string()),
    }
}

/// Reads a string literal as a Rust path. The literal is given as it is
/// written, with its quotes and its suffix.
///
/// Trusted: has `syn` read the literal (`syn::parse_str` for a `LitStr`),
/// calls `LitStr::parse::<syn::Path>` on it, and prints the path that it
/// found. The contract only names the outcome.
#[verifier::external_body]
pub(crate) fn parse_rust_path(literal: &str) -> (r: Result<String, String>)
    ensures
        text_outcome(r) == rust_path(literal@),
{
    match syn::parse_str::<LitStr>(literal).and_then(|l| l.parse::<syn::Path>()) {
        Ok(path) => Ok(path.to_token_stream().to_string()),
        Err(e) => Err(e.to_string()),
    }
}

/// Writes the string literal that denotes a text.
///
/// Trusted: calls `Literal::string` of `proc-macro2` and prints the
/// literal. The contract only names the outcome.
#[verifier::external_body]
pub(crate) fn write_string_literal(text: &str) -> (r: String)
    ensures
        r@ == string_literal(text@),
{
    proc_macro2::Literal::string(text).to_string()
}

} // verus!
