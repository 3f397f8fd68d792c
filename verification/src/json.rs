//! Small JSON objects of text, flags and lists of text, written and read
//! by `serde_json`.

use vstd::prelude::*;

verus! {

/// The value of a field of a small JSON object.
#[derive(Clone, Debug)]
pub enum JsonField {
    Text(String),
    Flag(bool),
    TextList(Vec<String>),
}

/// The value of a field, by its view.
pub enum JsonFieldView {
    Text(Seq<char>),
    Flag(bool),
    TextList(Seq<Seq<char>>),
}

/// The view of a field's value.
pub open spec fn field_view(f: JsonField) -> JsonFieldView {
    match f {
        JsonField::Text(t) => JsonFieldView::Text(t@),
        JsonField::Flag(b) => JsonFieldView::Flag(b),
        JsonField::TextList(l) => JsonFieldView::TextList(Seq::new(l@.len(), |i: int| l@[i]@)),
    }
}

/// The views of the fields of an object, in order.
pub open spec fn fields_view(pairs: Seq<(String, JsonField)>) -> Seq<(Seq<char>, JsonFieldView)> {
    Seq::new(pairs.len(), |i: int| (pairs[i].0@, field_view(pairs[i].1)))
}

/// The flag an object of these fields holds under `key`: the value of the
/// last field of that name, when it is a flag (a later field of a name
/// replaces an earlier one in the object).
pub open spec fn flag_of(fields: Seq<(Seq<char>, JsonFieldView)>, key: Seq<char>) -> Option<bool>
    decreases fields.len(),
{
    if fields.len() == 0 {
        None
    } else if fields.last().0 == key {
        match fields.last().1 {
            JsonFieldView::Flag(b) => Some(b),
            _ => None,
        }
    } else {
        flag_of(fields.drop_last(), key)
    }
}

/// What `serde_json` finds in a JSON text under a top-level key, as a
/// boolean: nothing when the text is not JSON, has no such key, or holds
/// something else there.
pub uninterp spec fn json_bool_member_of(text: Seq<char>, key: Seq<char>) -> Option<bool>;

/// `serde_json::from_str::<Value>(text)`, then `get(key)` and `as_bool`. The
/// contract names the result as a function of the text and the key.
#[verifier::external_body]
pub(crate) fn json_bool_member(text: &str, key: &str) -> (r: Option<bool>)
    ensures
        r == json_bool_member_of(text@, key@),
{
    match serde_json::from_str::<serde_json::Value>(text) {
        Ok(v) => v.get(key).and_then(|d| d.as_bool()),
        Err(_) => None,
    }
}

/// What `serde_json::to_string` writes for the object of these fields.
pub uninterp spec fn json_object_of(fields: Seq<(Seq<char>, JsonFieldView)>) -> Seq<char>;

/// What `serde_json::to_string_pretty` writes for the object of these
/// fields.
pub uninterp spec fn json_object_pretty_of(fields: Seq<(Seq<char>, JsonFieldView)>) -> Seq<char>;

/// `serde_json::to_string` of a `serde_json::Map` collected from the fields,
/// each text a JSON string, each flag a boolean, each list an array of
/// strings. The contract names the result as a function of the fields;
/// writing such a map does not fail.
#[verifier::external_body]
pub(crate) fn json_object(pairs: &Vec<(String, JsonField)>) -> (r: String)
    ensures
        r@ == json_object_of(fields_view(pairs@)),
{
    let map: serde_json::Map<String, serde_json::Value> = pairs.iter().map(|(k, v)| (k.clone(), match v {
        JsonField::Text(t) => serde_json::Value::String(t.clone()),
        JsonField::Flag(b) => serde_json::Value::Bool(*b),
        JsonField::TextList(l) => serde_json::Value::Array(l.iter().cloned().map(serde_json::Value::String).collect()),
    })).collect();
    serde_json::to_string(&serde_json::Value::Object(map)).unwrap_or_default()
}

/// `serde_json::to_string_pretty` of a `serde_json::Map` collected from the
/// fields, as for `json_object`. The contract names the result as a
/// function of the fields; writing such a map does not fail. It also says
/// that the text reads back: `serde_json::from_str` parses what
/// `to_string_pretty` wrote of a `Map` into that same map (the map holds,
/// under each name, the value of the last field of that name), so `get`
/// and `as_bool` find under each name the flag, if any, that the map holds.
#[verifier::external_body]
pub(crate) fn json_object_pretty(pairs: &Vec<(String, JsonField)>) -> (r: String)
    ensures
        r@ == json_object_pretty_of(fields_view(pairs@)),
        forall|key: Seq<char>| #[trigger] json_bool_member_of(r@, key) == flag_of(fields_view(pairs@), key),
{
    let map: serde_json::Map<String, serde_json::Value> = pairs.iter().map(|(k, v)| (k.clone(), match v {
        JsonField::Text(t) => serde_json::Value::String(t.clone()),
        JsonField::Flag(b) => serde_json::Value::Bool(*b),
        JsonField::TextList(l) => serde_json::Value::Array(l.iter().cloned().map(serde_json::Value::String).collect()),
    })).collect();
    serde_json::to_string_pretty(&serde_json::Value::Object(map)).unwrap_or_default()
}

/// A field with a text value.
pub fn text_field(name: &str, value: &str) -> (r: (String, JsonField))
    ensures
        r.0@ == name@,
        field_view(r.1) == JsonFieldView::Text(value@),
{
    (String::from_str(name), JsonField::Text(String::from_str(value)))
}

} // verus!
