//! JSON documents, read and written by `serde_json`.

use vstd::prelude::*;

use crate::text;

verus! {

/// `serde_json::Value`: a JSON document.
#[verifier::external_type_specification]
#[verifier::external_body]
pub struct ExValue(serde_json::Value);

/// `serde_json::Error`: why a text is no JSON document.
#[verifier::external_type_specification]
#[verifier::external_body]
pub struct ExJsonError(serde_json::Error);

/// The members of a JSON object whose values are strings; none of a document
/// that is no object.
pub uninterp spec fn json_strings(value: serde_json::Value) -> Map<Seq<char>, Seq<char>>;

/// Whether a JSON document is an array.
pub uninterp spec fn json_is_array(value: serde_json::Value) -> bool;

/// The document that `serde_json::from_str` reads from a text: whether it is an
/// array, and its string members. None where the text is no document.
pub uninterp spec fn parsed_json(source: Seq<char>) -> Option<(bool, Map<Seq<char>, Seq<char>>)>;

/// The text that `serde_json::to_string` writes for a list of strings.
pub uninterp spec fn json_list(items: Seq<Seq<char>>) -> Seq<char>;

/// Whether a text stands in JSON as it is: it holds no quote, no backslash and
/// no control character.
pub open spec fn is_plain_in_json(s: Seq<char>) -> bool {
    forall|i: int| 0 <= i < s.len() ==> #[trigger] s[i] >= ' ' && s[i] != '"' && s[i] != '\\'
}

/// Whether every text of a list stands in JSON as it is.
pub open spec fn all_plain_in_json(items: Seq<Seq<char>>) -> bool {
    forall|i: int| 0 <= i < items.len() ==> is_plain_in_json(#[trigger] items[i])
}

/// A list of quoted texts in brackets, separated by commas.
pub open spec fn quoted_list(items: Seq<Seq<char>>) -> Seq<char> {
    "["@ + text::join(items.map_values(|item: Seq<char>| "\""@ + item + "\""@), ","@) + "]"@
}

/// How many characters the texts of a list have.
pub open spec fn total_length(items: Seq<Seq<char>>) -> nat
    decreases items.len(),
{
    if items.len() == 0 {
        0
    } else {
        total_length(items.drop_last()) + items.last().len()
    }
}

/// `serde_json::from_str`: reads a document from a text. What it reads depends on
/// the text alone.
#[verifier::external_body]
pub(crate) fn read_json(source: &str) -> (r: Result<serde_json::Value, serde_json::Error>)
    ensures
        match r {
            Ok(value) => parsed_json(source@) == Some((json_is_array(value), json_strings(value))),
            Err(_) => parsed_json(source@) is None,
        },
{
    serde_json::from_str(source)
}

/// `Value::get` and `Value::as_str`: the string member of an object with the
/// given name, if there is one.
#[verifier::external_body]
pub(crate) fn string_member(value: &serde_json::Value, name: &str) -> (r: Option<String>)
    ensures
        match r {
            Some(member) => json_strings(*value).dom().contains(name@) && json_strings(
                *value,
            )[name@] == member@,
            None => !json_strings(*value).dom().contains(name@),
        },
        json_is_array(*value) ==> r is None,
{
    match value.get(name) {
        Some(member) => member.as_str().map(str::to_string),
        None => None,
    }
}

/// `Value::is_array`: whether the document is an array.
#[verifier::external_body]
pub(crate) fn is_json_array(value: &serde_json::Value) -> (r: bool)
    ensures
        r == json_is_array(*value),
{
    value.is_array()
}

/// `serde_json::to_string` on a list of strings: it succeeds, and what it writes
/// depends on the strings alone. An escaped character takes six at most. Strings
/// in which nothing is escaped are quoted as they are.
#[verifier::external_body]
pub(crate) fn write_json_list(items: &Vec<String>) -> (r: Result<String, serde_json::Error>)
    ensures
        r is Ok,
        r->Ok_0@ == json_list(text::texts(items@)),
        r->Ok_0@.len() <= 6 * total_length(text::texts(items@)) + 3 * items@.len() + 2,
        all_plain_in_json(text::texts(items@)) ==> r->Ok_0@ == quoted_list(text::texts(items@)),
{
    serde_json::to_string(items)
}

} // verus!
