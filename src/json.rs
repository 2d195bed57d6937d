//! Reading members of a JSON document, and form encoding.
//!
//! The parsing itself is serde_json's and the encoding is the `url` crate's;
//! what they return is named here and relied on by the rest of the library.
use vstd::prelude::*;

verus! {

/// The string held by member `key` of the JSON object `doc`, if `doc` parses as
/// an object and that member is a string.
pub uninterp spec fn json_text_member(doc: Seq<char>, key: Seq<char>) -> Option<Seq<char>>;

/// The integer held by member `key` of the JSON object `doc`, if `doc` parses
/// as an object and that member is an integer that fits in `i64`.
pub uninterp spec fn json_int_member(doc: Seq<char>, key: Seq<char>) -> Option<i64>;

/// The JSON text of member `key` of the JSON object `doc`, if `doc` parses as
/// an object and that member is present and not `null`.
pub uninterp spec fn json_member(doc: Seq<char>, key: Seq<char>) -> Option<Seq<char>>;

/// The strings of the JSON array `doc`, if `doc` parses as an array of strings.
pub uninterp spec fn json_text_list(doc: Seq<char>) -> Option<Seq<Seq<char>>>;

/// Whether `doc` parses as a JSON object.
pub uninterp spec fn json_is_object(doc: Seq<char>) -> bool;

/// The `application/x-www-form-urlencoded` serialization of `pairs`, in order.
pub uninterp spec fn form_encoded(pairs: Seq<(Seq<char>, Seq<char>)>) -> Seq<char>;

/// The text of an optional string.
pub open spec fn opt_view(o: Option<String>) -> Option<Seq<char>> {
    match o {
        Some(s) => Some(s@),
        None => None,
    }
}

/// The texts of a list of name-value pairs.
pub open spec fn pair_views(pairs: Seq<(String, String)>) -> Seq<(Seq<char>, Seq<char>)> {
    pairs.map_values(|p: (String, String)| (p.0@, p.1@))
}

/// Relies on serde_json::from_str into a `Value`, `Value::get` with a string
/// key and `Value::as_str`: the string member `key` of the object `doc`.
#[verifier::external_body]
pub(crate) fn text_member(doc: &str, key: &str) -> (r: Option<String>)
    ensures
        opt_view(r) == json_text_member(doc@, key@),
{
    let v: serde_json::Value = serde_json::from_str(doc).ok()?;
    v.get(key)?.as_str().map(|s| s.to_string())
}

/// Relies on serde_json::from_str into a `Value`, `Value::get` with a string
/// key and `Value::as_i64`: the `i64` member `key` of the object `doc`.
#[verifier::external_body]
pub(crate) fn int_member(doc: &str, key: &str) -> (r: Option<i64>)
    ensures
        r == json_int_member(doc@, key@),
{
    let v: serde_json::Value = serde_json::from_str(doc).ok()?;
    v.get(key)?.as_i64()
}

/// Relies on serde_json::from_str into a `Value`, `Value::get` with a string
/// key and the `Display` of `Value`: the text of member `key` unless it is
/// absent or `null`.
#[verifier::external_body]
pub(crate) fn member(doc: &str, key: &str) -> (r: Option<String>)
    ensures
        opt_view(r) == json_member(doc@, key@),
{
    let v: serde_json::Value = serde_json::from_str(doc).ok()?;
    match v.get(key) {
        None | Some(serde_json::Value::Null) => None,
        Some(m) => Some(m.to_string()),
    }
}

/// Relies on serde_json::from_str into a `Value` and `Value::is_object`.
#[verifier::external_body]
pub(crate) fn is_object(doc: &str) -> (r: bool)
    ensures
        r == json_is_object(doc@),
{
    match serde_json::from_str::<serde_json::Value>(doc) {
        Ok(v) => v.is_object(),
        Err(_) => false,
    }
}

/// Relies on serde_json::from_str into a `Vec<String>`: the strings of an
/// array of strings.
#[verifier::external_body]
pub(crate) fn text_list(doc: &str) -> (r: Option<Vec<String>>)
    ensures
        match r {
            Some(v) => json_text_list(doc@) == Some(v@.map_values(|s: String| s@)),
            None => json_text_list(doc@) is None,
        },
{
    serde_json::from_str::<Vec<String>>(doc).ok()
}

/// Relies on url::form_urlencoded::Serializer (`new`, `extend_pairs`,
/// `finish`): the urlencoded form of the pairs, in the given order.
#[verifier::external_body]
pub(crate) fn encode_form(pairs: &Vec<(String, String)>) -> (r: String)
    ensures
        r@ == form_encoded(pair_views(pairs@)),
{
    url::form_urlencoded::Serializer::new(String::new()).extend_pairs(pairs.iter()).finish()
}

} // verus!
