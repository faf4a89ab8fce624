//! The outside JSON codec and the line trimming that the log format relies on.
use vstd::prelude::*;

verus! {

#[verifier::external_type_specification]
#[verifier::external_body]
pub struct ExValue(serde_json::Value);

#[verifier::external_type_specification]
#[verifier::external_body]
pub struct ExJsonError(serde_json::Error);

/// The value that a text denotes as one JSON document, if it is one.
pub uninterp spec fn parsed(text: Seq<char>) -> Option<serde_json::Value>;

/// The text that `to_string` gives for a value.
pub uninterp spec fn encoded(v: serde_json::Value) -> Seq<char>;

/// A character of Unicode's `White_Space` property.
pub open spec fn is_white_space(c: char) -> bool {
    let u = c as u32;
    ||| 0x09 <= u <= 0x0d
    ||| u == 0x20
    ||| u == 0x85
    ||| u == 0xa0
    ||| u == 0x1680
    ||| 0x2000 <= u <= 0x200a
    ||| u == 0x2028
    ||| u == 0x2029
    ||| u == 0x202f
    ||| u == 0x205f
    ||| u == 0x3000
}

/// A text without its leading white space.
pub open spec fn trim_start(text: Seq<char>) -> Seq<char>
    decreases text.len(),
{
    if text.len() > 0 && is_white_space(text[0]) {
        trim_start(text.drop_first())
    } else {
        text
    }
}

/// A text without its trailing white space.
pub open spec fn trim_end(text: Seq<char>) -> Seq<char>
    decreases text.len(),
{
    if text.len() > 0 && is_white_space(text.last()) {
        trim_end(text.drop_last())
    } else {
        text
    }
}

/// A text with leading and trailing white space removed.
pub open spec fn trimmed(text: Seq<char>) -> Seq<char> {
    trim_end(trim_start(text))
}

/// Relies on `serde_json::from_str`: whether a text is one JSON document, and
/// which value it denotes, depend on the text alone.
#[verifier::external_body]
pub(crate) fn parse_json(text: &str) -> (r: Option<serde_json::Value>)
    ensures
        r == parsed(text@),
{
    serde_json::from_str::<serde_json::Value>(text).ok()
}

/// Relies on `serde_json::to_string` on a `Value`: it cannot fail (a `Value`
/// has string map keys only and is written to a `Vec`); the compact form is
/// one non-empty line with no white space around it; and where `from_str`
/// reads it (its nesting depth limit may refuse it), it reads back the same
/// value (with the crate's `float_roundtrip` feature).
#[verifier::external_body]
pub(crate) fn encode_json(v: &serde_json::Value) -> (r: Result<String, serde_json::Error>)
    ensures
        r is Ok,
        r is Ok ==> {
            let t = r->Ok_0@;
            &&& t == encoded(*v)
            &&& t.len() > 0
            &&& trimmed(t) == t
            &&& parsed(t) is Some ==> parsed(t) == Some(*v)
            &&& forall|i: int| 0 <= i < t.len() ==> t[i] != '\n'
        },
{
    serde_json::to_string(v)
}

/// Relies on `str::trim`: leading and trailing characters of the Unicode
/// `White_Space` property are removed.
#[verifier::external_body]
pub(crate) fn trim_text(text: &str) -> (r: &str)
    ensures
        r@ == trimmed(text@),
{
    text.trim()
}

} // verus!
