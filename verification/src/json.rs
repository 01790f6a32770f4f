//! JSON documents, as far as the command inbox reads them.

use vstd::prelude::*;

verus! {

/// What the library distinguishes inside a JSON document.
pub enum Json {
    /// A number that fits an unsigned 64-bit integer.
    Count(u64),
    /// A string.
    Text(Seq<char>),
    /// An object, by its members.
    Object(Map<Seq<char>, Json>),
    /// Everything else: null, booleans, arrays, and the remaining numbers.
    Other,
}

impl Json {
    /// The member of an object under `key`; `Other` where there is none.
    pub open spec fn member(self, key: Seq<char>) -> Json {
        match self {
            Json::Object(members) => if members.contains_key(key) {
                members[key]
            } else {
                Json::Other
            },
            _ => Json::Other,
        }
    }

    pub open spec fn count(self) -> Option<u64> {
        match self {
            Json::Count(n) => Some(n),
            _ => None,
        }
    }

    pub open spec fn text(self) -> Option<Seq<char>> {
        match self {
            Json::Text(t) => Some(t),
            _ => None,
        }
    }
}

/// A parsed JSON document of `serde_json`.
#[verifier::external_type_specification]
#[verifier::external_body]
pub struct ExValue(serde_json::Value);

/// What a parsed document holds.
pub uninterp spec fn value_contents(value: serde_json::Value) -> Json;

/// What `serde_json::from_str` reads out of a text; `None` where it fails.
pub uninterp spec fn json_document(text: Seq<char>) -> Option<Json>;

/// Calls `serde_json::from_str` for a `serde_json::Value`. Claims that whether it
/// succeeds, and what the value then holds, is a function of the text.
#[verifier::external_body]
pub(crate) fn parse_value(text: &str) -> (r: Option<serde_json::Value>)
    ensures
        r is Some <==> json_document(text@) is Some,
        r matches Some(value) ==> json_document(text@) == Some(value_contents(value)),
{
    serde_json::from_str(text).ok()
}

/// Calls `serde_json::Value::index` with a string. Claims that an object answers with
/// the member of that name, and that everything else, and an object without that
/// member, answers with null.
#[verifier::external_body]
pub(crate) fn value_member<'a>(value: &'a serde_json::Value, key: &str) -> (r: &'a serde_json::Value)
    ensures
        value_contents(*r) == value_contents(*value).member(key@),
{
    &value[key]
}

/// `serde_json::Value::as_u64`: claims that it is the number where the value is one
/// that fits, and `None` otherwise.
pub assume_specification[ serde_json::Value::as_u64 ](value: &serde_json::Value) -> (r: Option<u64>)
    ensures
        r == value_contents(*value).count(),
;

/// `serde_json::Value::as_str`: claims that it is the string where the value is one,
/// and `None` otherwise.
pub assume_specification[ serde_json::Value::as_str ](value: &serde_json::Value) -> (r: Option<&str>)
    ensures
        r is Some <==> value_contents(*value).text() is Some,
        r matches Some(s) ==> value_contents(*value).text() == Some(s@),
;

/// Only an object has members, only a number that fits counts, and only a string is a text;
/// nothing else answers.
pub proof fn law_values_answer_by_their_kind(members: Map<Seq<char>, Json>, key: Seq<char>, n: u64, t: Seq<char>)
    ensures
        members.contains_key(key) ==> Json::Object(members).member(key) == members[key],
        !members.contains_key(key) ==> Json::Object(members).member(key) is Other,
        Json::Count(n).member(key) is Other,
        Json::Text(t).member(key) is Other,
        Json::Other.member(key) is Other,
        Json::Count(n).count() == Some(n),
        Json::Text(t).count() is None,
        Json::Object(members).count() is None,
        Json::Other.count() is None,
        Json::Text(t).text() == Some(t),
        Json::Count(n).text() is None,
        Json::Object(members).text() is None,
        Json::Other.text() is None,
{
}

} // verus!
