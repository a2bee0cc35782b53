//! String literals as the arguments of a title attribute.

use std::str::FromStr;
use vstd::prelude::*;
use vstd::string::StrSliceExecFns;

verus! {

/// `syn::Error`, which a failed parse gives. The library looks at nothing inside it.
#[verifier::external_type_specification]
#[verifier::external_body]
pub struct ExSynError(syn::Error);

/// Whether `source` opens as a string literal does: with a double quote, or with the `r` of a
/// raw string.
pub open spec fn opens_string_literal(source: Seq<char>) -> bool {
    source.len() > 0 && (source[0] == '"' || source[0] == 'r')
}

/// Whether `source`, which opens as a string literal does, is one literal token from its first
/// character to its last.
pub uninterp spec fn is_string_token(source: Seq<char>) -> bool;

/// The string that the string literal `source` stands for; `None` where `source` is not one
/// string literal.
pub uninterp spec fn string_literal_value(source: Seq<char>) -> Option<Seq<char>>;

/// The title that the arguments of a title attribute give: the value of the one string literal
/// that they are.
pub open spec fn title_literal(arguments: Option<Seq<char>>) -> Option<Seq<char>> {
    match arguments {
        Some(source) => if opens_string_literal(source) && is_string_token(source) {
            string_literal_value(source)
        } else {
            None
        },
        None => None,
    }
}

/// Tells whether all of `source` is one literal token.
///
/// Trusted: the body is `proc_macro2::Literal::from_str`, which accepts a text that is exactly
/// one literal, with nothing before or after it, and refuses every other text. The contract
/// gives that answer a name. It is asked only of a text that opens with `"` or `r`, for which
/// the literal can only be a string literal or a raw string literal.
#[verifier::external_body]
fn lex_string_token(source: &str) -> (is_token: bool)
    requires
        opens_string_literal(source@),
    ensures
        is_token == is_string_token(source@),
{
    proc_macro2::Literal::from_str(source).is_ok()
}

/// Parses `source` as a string literal and gives the string it stands for.
///
/// Trusted: the body is `syn::parse_str::<syn::LitStr>` followed by `LitStr::value`. The
/// contract names the outcome: the value on success, none on failure. `syn` panics on a literal
/// of a kind it does not know and walks nested groups by recursion, so the call is made only on
/// a text that is one literal token and opens with `"` or `r`: such a token is a string
/// literal, and the lexer has accepted its escapes before `syn` reads them.
#[verifier::external_body]
fn parse_lit_str(source: &str) -> (parsed: Result<String, syn::Error>)
    requires
        opens_string_literal(source@),
        is_string_token(source@),
    ensures
        match parsed {
            Ok(value) => string_literal_value(source@) == Some(value@),
            Err(_) => string_literal_value(source@) is None,
        },
{
    match syn::parse_str::<syn::LitStr>(source) {
        Ok(literal) => Ok(literal.value()),
        Err(error) => Err(error),
    }
}

/// Reads the arguments of a title attribute: `Some` title where they are one string literal,
/// `None` where there are no arguments or they are anything else.
pub fn parse_title(arguments: &Option<String>) -> (title: Option<String>)
    ensures
        title.deep_view() == title_literal(arguments.deep_view()),
{
    match arguments {
        None => None,
        Some(source) => {
            let source = source.as_str();
            if source.is_empty() {
                return None;
            }
            let first = source.get_char(0);
            if first != '"' && first != 'r' {
                return None;
            }
            if !lex_string_token(source) {
                return None;
            }
            match parse_lit_str(source) {
                Ok(value) => Some(value),
                Err(_) => None,
            }
        },
    }
}

} // verus!
