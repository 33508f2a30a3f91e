use vstd::prelude::*;
use vstd::string::*;

verus! {

/// Why a marker attribute could not be expanded.
#[derive(Debug, PartialEq, Eq)]
pub enum JniError {
    /// The marker's argument list starts with something other than a
    /// string literal; holds the source text of that token.
    MalformedArgument(String),
    /// The marker stands on an item that is neither a function nor a module.
    UnsupportedTarget,
}

/// The decoded value of the string literal written as `text`, or `None`
/// when `text` is not the source text of a string literal.
pub uninterp spec fn str_lit_value(text: Seq<char>) -> Option<Seq<char>>;

/// Whether `text` may be handed to the literal decoder: it is empty or its
/// last character is ASCII (the decoder slices off the last byte).
pub open spec fn decodable(text: Seq<char>) -> bool {
    text.len() == 0 || (text.last() as u32) < 128
}

/// Relies on `litrs::StringLit::parse` and `StringLit::value`: decodes a
/// (raw) string literal from its source text, escapes resolved; fails on
/// text that is not a string literal.
#[verifier::external_body]
fn parse_string_lit(text: &str) -> (r: Option<String>)
    requires
        decodable(text@),
    ensures
        r.deep_view() == str_lit_value(text@),
{
    match litrs::StringLit::parse(text) {
        Ok(lit) => Some(lit.value().to_string()),
        Err(_) => None,
    }
}

/// Relies on `proc_macro2::Literal::string`: the source text of a string
/// literal token whose value is `value`, written between double quotes with
/// escapes that the literal decoder resolves.
#[verifier::external_body]
pub(crate) fn string_literal(value: &str) -> (r: String)
    ensures
        r@.len() > 0,
        r@.last() == '"',
        str_lit_value(r@) == Some(value@),
{
    proc_macro2::Literal::string(value).to_string()
}

/// The value written in an argument list, given as the source text of its
/// tokens: `Ok(None)` for an empty list, the decoded first token when it is
/// a string literal (later tokens are ignored), otherwise the first token
/// as a malformed argument. A first token that ends in a non-ASCII
/// character is never a plain string literal and counts as malformed.
pub open spec fn arg_value(tokens: Seq<Seq<char>>) -> Result<Option<Seq<char>>, Seq<char>> {
    if tokens.len() == 0 {
        Ok(None)
    } else if !decodable(tokens[0]) {
        Err(tokens[0])
    } else {
        match str_lit_value(tokens[0]) {
            Some(v) => Ok(Some(v)),
            None => Err(tokens[0]),
        }
    }
}

/// The value of a marker's argument list, as in `arg_value`.
pub open spec fn parsed_matches(r: Result<Option<String>, JniError>, tokens: Seq<Seq<char>>) -> bool {
    match arg_value(tokens) {
        Ok(v) => r matches Ok(o) && o.deep_view() == v,
        Err(t) => r matches Err(JniError::MalformedArgument(e)) && e@ == t,
    }
}

/// Reads the optional string-literal argument of a marker attribute.
pub fn get_value(tokens: &Vec<String>) -> (r: Result<Option<String>, JniError>)
    ensures
        parsed_matches(r, tokens.deep_view()),
{
    if tokens.len() == 0 {
        return Ok(None);
    }
    let first = tokens[0].as_str();
    let n = first.unicode_len();
    if n > 0 && (first.get_char(n - 1) as u32) >= 128 {
        return Err(JniError::MalformedArgument(tokens[0].clone()));
    }
    assert(tokens.deep_view()[0] == first@);
    match parse_string_lit(tokens[0].as_str()) {
        Some(v) => Ok(Some(v)),
        None => Err(JniError::MalformedArgument(tokens[0].clone())),
    }
}

/// Whether the fallback qualifier is consulted for a marker with these
/// argument tokens: only when the argument is absent or an empty string.
pub fn needs_fallback(tokens: &Vec<String>) -> (r: bool)
    ensures
        r == (arg_value(tokens.deep_view()) matches Ok(v) && (v is None || v->Some_0.len() == 0)),
{
    match get_value(tokens) {
        Ok(Some(v)) => v.as_str().unicode_len() == 0,
        Ok(None) => true,
        Err(_) => false,
    }
}

} // verus!
