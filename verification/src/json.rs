//! JSON documents, read by `serde_json`, as far as the tool looks into them:
//! for the strings that they hold.

use vstd::prelude::*;

verus! {

/// A JSON value of `serde_json`. Nothing inside it is seen from here.
#[verifier::external_type_specification]
#[verifier::external_body]
pub struct ExJsonValue(serde_json::Value);

/// The error of `serde_json`. Nothing inside it is seen from here.
#[verifier::external_type_specification]
#[verifier::external_body]
pub struct ExJsonError(serde_json::Error);

/// The strings that a JSON value holds, each under the keys that lead to it:
/// a string holds itself under no key, an object holds under the key `k` and
/// then the keys `p` what its member `k` holds under `p`, and any other value
/// holds none.
pub uninterp spec fn json_strings(value: serde_json::Value) -> Map<Seq<Seq<char>>, Seq<char>>;

/// The strings of the JSON document that `text` is, or `None` where it is
/// not one.
pub uninterp spec fn document_strings(text: Seq<char>) -> Option<Map<Seq<Seq<char>>, Seq<char>>>;

/// Of `strings`, those under `key`, each under the keys that follow `key`.
pub open spec fn strings_under(strings: Map<Seq<Seq<char>>, Seq<char>>, key: Seq<char>) -> Map<
    Seq<Seq<char>>,
    Seq<char>,
> {
    Map::new(
        |path: Seq<Seq<char>>| strings.contains_key(seq![key] + path),
        |path: Seq<Seq<char>>| strings[seq![key] + path],
    )
}

/// Of `strings`, the one under `path`, if there is one.
pub open spec fn string_at(strings: Map<Seq<Seq<char>>, Seq<char>>, path: Seq<Seq<char>>) -> Option<
    Seq<char>,
> {
    if strings.contains_key(path) {
        Some(strings[path])
    } else {
        None
    }
}

/// `serde_json::from_str` for a `Value`: whether `text` is taken as a JSON
/// document, and the strings of the value read from it, depend on `text`
/// alone.
#[verifier::external_body]
pub(crate) fn parse_json(text: &str) -> (out: Result<serde_json::Value, serde_json::Error>)
    ensures
        match out {
            Ok(value) => document_strings(text@) == Some(json_strings(value)),
            Err(_) => document_strings(text@) is None,
        },
{
    serde_json::from_str::<serde_json::Value>(text)
}

/// Indexing a `serde_json::Value` by a string: the member `key` of an object
/// that has one, and the null value otherwise. So the result holds what the
/// value holds under `key`. The call does not panic on any value.
#[verifier::external_body]
pub(crate) fn member<'a>(value: &'a serde_json::Value, key: &str) -> (out: &'a serde_json::Value)
    ensures
        json_strings(*out) == strings_under(json_strings(*value), key@),
{
    &value[key]
}

/// `Value::as_str` of `serde_json`: the text of a value that is a string,
/// which is the string that it holds under no key, and `None` for any other
/// value.
#[verifier::external_body]
pub(crate) fn as_string<'a>(value: &'a serde_json::Value) -> (out: Option<&'a str>)
    ensures
        match out {
            Some(text) => string_at(json_strings(*value), Seq::empty()) == Some(text@),
            None => string_at(json_strings(*value), Seq::empty()) is None,
        },
{
    value.as_str()
}

/// What is under the keys `first` and `second` is what is under `second`
/// among what is under `first`.
pub proof fn lemma_string_under_two_keys(
    strings: Map<Seq<Seq<char>>, Seq<char>>,
    first: Seq<char>,
    second: Seq<char>,
)
    ensures
        string_at(strings_under(strings_under(strings, first), second), Seq::empty()) == string_at(
            strings,
            seq![first, second],
        ),
{
    assert(seq![first] + seq![second] == seq![first, second]);
}

} // verus!
