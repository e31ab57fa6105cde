//! Reading string fields out of JSON text.
//!
//! Parsing is done by `serde_json`. A parsed document is carried as an
//! opaque `serde_json::Value`; contracts speak of it through `JsonModel`,
//! the tree that it stands for.

use vstd::prelude::*;

verus! {

/// `serde_json::Value`, a parsed JSON document, carried as it is.
#[verifier::external_type_specification]
#[verifier::external_body]
pub struct ExJsonValue(serde_json::Value);

/// The tree that a JSON document stands for. Numbers are not told apart:
/// nothing here reads one.
pub ghost enum JsonModel {
    Null,
    Bool(bool),
    Number,
    Text(Seq<char>),
    Array(Seq<JsonModel>),
    Object(Map<Seq<char>, JsonModel>),
}

/// The tree that a parsed document holds.
pub uninterp spec fn json_model(v: serde_json::Value) -> JsonModel;

/// What parsing a text gives: the document, or the parser's message where
/// the text is not well-formed JSON.
pub uninterp spec fn json_parsed(text: Seq<char>) -> Result<JsonModel, Seq<char>>;

/// The member `key` of an object; `Null` where the tree is no object or has
/// no such member.
pub open spec fn model_field(m: JsonModel, key: Seq<char>) -> JsonModel {
    match m {
        JsonModel::Object(members) => if members.dom().contains(key) {
            members[key]
        } else {
            JsonModel::Null
        },
        _ => JsonModel::Null,
    }
}

/// The element `i` of an array; `Null` where the tree is no array or is
/// shorter.
pub open spec fn model_item(m: JsonModel, i: int) -> JsonModel {
    match m {
        JsonModel::Array(items) => if 0 <= i < items.len() {
            items[i]
        } else {
            JsonModel::Null
        },
        _ => JsonModel::Null,
    }
}

/// The text of a string node; `None` for any other node.
pub open spec fn model_text(m: JsonModel) -> Option<Seq<char>> {
    match m {
        JsonModel::Text(s) => Some(s),
        _ => None,
    }
}

/// Calls `serde_json::from_str` for a `Value`: the parsed document, or the
/// parser's message where the text is not well-formed JSON. Both depend on
/// the text alone.
#[verifier::external_body]
pub(crate) fn json_parse(text: &str) -> (r: Result<serde_json::Value, String>)
    ensures
        match r {
            Ok(v) => json_parsed(text@) == Ok::<JsonModel, Seq<char>>(json_model(v)),
            Err(m) => json_parsed(text@) == Err::<JsonModel, Seq<char>>(m@),
        },
{
    match serde_json::from_str::<serde_json::Value>(text) {
        Ok(v) => Ok(v),
        Err(e) => Err(e.to_string()),
    }
}

/// Indexes a `Value` by a member name (`Index<&str>`): the member, or the
/// null value where there is none.
#[verifier::external_body]
pub(crate) fn json_field<'a>(v: &'a serde_json::Value, key: &str) -> (r: &'a serde_json::Value)
    ensures
        json_model(*r) == model_field(json_model(*v), key@),
{
    &v[key]
}

/// Indexes a `Value` by a position (`Index<usize>`): the element, or the
/// null value where there is none.
#[verifier::external_body]
pub(crate) fn json_item<'a>(v: &'a serde_json::Value, i: usize) -> (r: &'a serde_json::Value)
    ensures
        json_model(*r) == model_item(json_model(*v), i as int),
{
    &v[i]
}

/// Calls `Value::as_str`: the text of a string node, copied out.
#[verifier::external_body]
pub(crate) fn json_as_str(v: &serde_json::Value) -> (r: Option<String>)
    ensures
        r is Some <==> model_text(json_model(*v)) is Some,
        r is Some ==> r.unwrap()@ == model_text(json_model(*v)).unwrap(),
{
    match v.as_str() {
        Some(s) => Some(s.to_string()),
        None => None,
    }
}

} // verus!
