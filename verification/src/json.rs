//! Reading a string member out of a JSON document.

use vstd::prelude::*;

verus! {

/// `serde_json::Value`, a JSON document in memory; nothing of its inside
/// is known here but what `string_members` names.
#[verifier::external_type_specification]
#[verifier::external_body]
pub struct ExJsonValue(serde_json::Value);

/// The members of a JSON object whose values are strings, each name with
/// the text it holds; empty for a value that is no object.
pub uninterp spec fn string_members(value: serde_json::Value) -> Map<Seq<char>, Seq<char>>;

/// The string members of the JSON document that `text` is, or `None`
/// where `text` is no JSON document.
pub uninterp spec fn json_document(text: Seq<char>) -> Option<Map<Seq<char>, Seq<char>>>;

/// `serde_json::from_str` at `serde_json::Value`: the value that `text`
/// denotes, or nothing where the parser rejects `text`. The outcome depends
/// on `text` alone.
#[verifier::external_body]
fn parse(text: &str) -> (parsed: Option<serde_json::Value>)
    ensures
        match parsed {
            Some(value) => json_document(text@) == Some(string_members(value)),
            None => json_document(text@) is None,
        },
{
    serde_json::from_str::<serde_json::Value>(text).ok()
}

/// `Value::get` with a string index, narrowed to `Value::String`: the text
/// of the member called `name`, if the value is an object that has such a
/// member and it holds a string.
#[verifier::external_body]
fn member_text(value: &serde_json::Value, name: &str) -> (text: Option<String>)
    ensures
        match text {
            Some(t) => string_members(*value).contains_key(name@) && string_members(*value)[name@]
                == t@,
            None => !string_members(*value).contains_key(name@),
        },
{
    match value.get(name) {
        Some(serde_json::Value::String(t)) => Some(t.clone()),
        _ => None,
    }
}

/// What a lookup of one string member in a text found.
pub enum JsonField {
    /// The text is no JSON document.
    NotJson,
    /// The document has no member of that name that holds a string.
    Absent,
    /// The string that the member holds.
    Text(String),
}

/// The mathematical content of a [`JsonField`].
pub enum FieldContent {
    NotJson,
    Absent,
    Text(Seq<char>),
}

impl View for JsonField {
    type V = FieldContent;

    open spec fn view(&self) -> FieldContent {
        match self {
            JsonField::NotJson => FieldContent::NotJson,
            JsonField::Absent => FieldContent::Absent,
            JsonField::Text(t) => FieldContent::Text(t@),
        }
    }
}

/// What looking up the string member `name` in `text` finds.
pub open spec fn field_of(text: Seq<char>, name: Seq<char>) -> FieldContent {
    match json_document(text) {
        None => FieldContent::NotJson,
        Some(members) => if members.contains_key(name) {
            FieldContent::Text(members[name])
        } else {
            FieldContent::Absent
        },
    }
}

/// Looks up the string member `name` in the JSON document `text`.
pub fn string_field(text: &str, name: &str) -> (found: JsonField)
    ensures
        found@ == field_of(text@, name@),
{
    match parse(text) {
        None => JsonField::NotJson,
        Some(value) => match member_text(&value, name) {
            None => JsonField::Absent,
            Some(t) => JsonField::Text(t),
        },
    }
}

} // verus!
