//! JSON documents, read by `serde_json`.
//!
//! A `serde_json::Value` is opaque here. `content` names what one holds, as a
//! mathematical document, and each accessor is specified over it.

use vstd::prelude::*;

verus! {

/// What a JSON value holds. What a number is counts for nothing here.
pub enum Json {
    Null,
    Bool(bool),
    Number,
    Text(Seq<char>),
    List(Seq<Json>),
    Object(Map<Seq<char>, Json>),
}

/// The type of a parsed document, `serde_json::Value`.
#[verifier::external_type_specification]
#[verifier::external_body]
pub struct ExValue(serde_json::Value);

/// What a `serde_json::Value` holds: its variant, with the texts, the items and the
/// members below it.
pub uninterp spec fn content(v: serde_json::Value) -> Json;

/// What `serde_json::from_slice` makes of some bytes, read as a `Value`: the document
/// that they are the JSON text of, or nothing where they are no JSON text.
pub uninterp spec fn parsed(bytes: Seq<u8>) -> Option<Json>;

/// `serde_json::from_slice::<serde_json::Value>`. The document depends on the bytes
/// alone; which texts are accepted is left to the name `parsed`.
#[verifier::external_body]
pub(crate) fn parse(bytes: &[u8]) -> (r: Option<serde_json::Value>)
    ensures
        match r {
            Some(v) => parsed(bytes@) == Some(content(v)),
            None => parsed(bytes@) is None,
        },
{
    serde_json::from_slice::<serde_json::Value>(bytes).ok()
}

/// `serde_json::Value::get` with a key: the member of that name, where the value is
/// an object that has one.
#[verifier::external_body]
pub(crate) fn member<'a>(v: &'a serde_json::Value, key: &str) -> (r: Option<&'a serde_json::Value>)
    ensures
        match (r, content(*v)) {
            (Some(found), Json::Object(members)) => members.contains_key(key@) && content(*found)
                == members[key@],
            (Some(_), _) => false,
            (None, Json::Object(members)) => !members.contains_key(key@),
            (None, _) => true,
        },
{
    v.get(key)
}

/// `serde_json::Value::as_array`: the items, where the value is a list.
pub assume_specification[ serde_json::Value::as_array ](v: &serde_json::Value) -> (r: Option<
    &Vec<serde_json::Value>,
>)
    ensures
        match (r, content(*v)) {
            (Some(items), Json::List(list)) => items@.len() == list.len() && forall|i: int|
                0 <= i < list.len() ==> content(#[trigger] items@[i]) == list[i],
            (Some(_), _) => false,
            (None, Json::List(_)) => false,
            (None, _) => true,
        },
;

/// `serde_json::Value::as_bool`: the truth value, where the value is one.
pub assume_specification[ serde_json::Value::as_bool ](v: &serde_json::Value) -> (r: Option<bool>)
    ensures
        r == match content(*v) {
            Json::Bool(b) => Some(b),
            _ => None,
        },
;

/// `serde_json::Value::as_str`: the text, where the value is one.
pub assume_specification[ serde_json::Value::as_str ](v: &serde_json::Value) -> (r: Option<&str>)
    ensures
        match (r, content(*v)) {
            (Some(s), Json::Text(t)) => s@ == t,
            (Some(_), _) => false,
            (None, Json::Text(_)) => false,
            (None, _) => true,
        },
;

/// The member of a document under a key.
pub open spec fn member_of(doc: Json, key: Seq<char>) -> Option<Json> {
    match doc {
        Json::Object(members) => if members.contains_key(key) {
            Some(members[key])
        } else {
            None
        },
        _ => None,
    }
}

/// The truth value that stands under a key.
pub open spec fn flag_of(doc: Json, key: Seq<char>) -> Option<bool> {
    match member_of(doc, key) {
        Some(Json::Bool(b)) => Some(b),
        _ => None,
    }
}

/// The text that stands under a key.
pub open spec fn text_of(doc: Json, key: Seq<char>) -> Option<Seq<char>> {
    match member_of(doc, key) {
        Some(Json::Text(t)) => Some(t),
        _ => None,
    }
}

/// The items that stand under a key.
pub open spec fn list_of(doc: Json, key: Seq<char>) -> Option<Seq<Json>> {
    match member_of(doc, key) {
        Some(Json::List(items)) => Some(items),
        _ => None,
    }
}

/// Reads the truth value under a key.
pub fn read_flag(v: &serde_json::Value, key: &str) -> (r: Option<bool>)
    ensures
        r == flag_of(content(*v), key@),
{
    match member(v, key) {
        Some(found) => found.as_bool(),
        None => None,
    }
}

/// Reads the text under a key.
pub fn read_text(v: &serde_json::Value, key: &str) -> (r: Option<String>)
    ensures
        match r {
            Some(t) => text_of(content(*v), key@) == Some(t@),
            None => text_of(content(*v), key@) is None,
        },
{
    match member(v, key) {
        Some(found) => match found.as_str() {
            Some(t) => Some(t.to_owned()),
            None => None,
        },
        None => None,
    }
}

/// What stands under a key is read only from an object that has the key, and only as
/// what it is there: a truth value, a text or a list.
pub proof fn members_are_read_as_what_they_are(doc: Json, key: Seq<char>)
    ensures
        match doc {
            Json::Object(members) => if members.contains_key(key) {
                let own = members[key];
                &&& forall|b: bool| flag_of(doc, key) == Some(b) <==> own == Json::Bool(b)
                &&& forall|t: Seq<char>| text_of(doc, key) == Some(t) <==> own == Json::Text(t)
                &&& forall|l: Seq<Json>| list_of(doc, key) == Some(l) <==> own == Json::List(l)
            } else {
                flag_of(doc, key) is None && text_of(doc, key) is None && list_of(doc, key) is None
            },
            _ => flag_of(doc, key) is None && text_of(doc, key) is None && list_of(
                doc,
                key,
            ) is None,
        },
{
}

} // verus!
