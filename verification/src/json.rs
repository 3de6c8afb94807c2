//! JSON documents as values, and their reading and writing.
//!
//! Error bodies travel as JSON. The text is read and written by
//! `serde_json`; what the library decides about a document it decides on a
//! [`JsonValue`], a plain tree that holds what `serde_json` found.

use vstd::prelude::*;

verus! {

/// One member of a JSON object.
#[derive(Debug)]
pub struct JsonMember {
    pub key: String,
    pub value: JsonValue,
}

/// A JSON document.
#[derive(Debug)]
pub enum JsonValue {
    Null,
    Bool(bool),
    /// A number, by its decimal text.
    Number(String),
    Text(String),
    Array(Vec<JsonValue>),
    /// An object, by its members in the order in which they are kept.
    Object(Vec<JsonMember>),
}

/// A [`JsonValue`] as a mathematical value.
pub enum JsonView {
    Null,
    Bool(bool),
    Number(Seq<char>),
    Text(Seq<char>),
    Array(Seq<JsonView>),
    Object(Seq<(Seq<char>, JsonView)>),
}

impl JsonValue {
    /// The document as a mathematical value.
    pub open spec fn model(self) -> JsonView
        decreases self,
    {
        match self {
            JsonValue::Null => JsonView::Null,
            JsonValue::Bool(b) => JsonView::Bool(b),
            JsonValue::Number(text) => JsonView::Number(text@),
            JsonValue::Text(text) => JsonView::Text(text@),
            JsonValue::Array(items) => JsonView::Array(
                Seq::new(
                    items.len() as nat,
                    |i: int|
                        if 0 <= i < items.len() {
                            items[i].model()
                        } else {
                            arbitrary()
                        },
                ),
            ),
            JsonValue::Object(members) => JsonView::Object(
                Seq::new(
                    members.len() as nat,
                    |i: int|
                        if 0 <= i < members.len() {
                            (members[i].key@, members[i].value.model())
                        } else {
                            arbitrary()
                        },
                ),
            ),
        }
    }
}

impl View for JsonValue {
    type V = JsonView;

    open spec fn view(&self) -> JsonView {
        self.model()
    }
}

/// The views of a list of documents, in the same order.
pub open spec fn json_views(values: Seq<JsonValue>) -> Seq<JsonView> {
    Seq::new(values.len(), |i: int| values[i]@)
}

/// The views of the members of an object, in the same order.
pub open spec fn member_views(members: Seq<JsonMember>) -> Seq<(Seq<char>, JsonView)> {
    Seq::new(members.len(), |i: int| (members[i].key@, members[i].value@))
}

/// The view of a document that may be missing.
pub open spec fn optional_view(value: Option<JsonValue>) -> Option<JsonView> {
    match value {
        Some(value) => Some(value@),
        None => None,
    }
}

/// The document type of `serde_json`, which this library only passes on.
#[verifier::external_type_specification]
#[verifier::external_body]
pub struct ExValue(serde_json::Value);

/// The document that `serde_json` reads from `bytes`, or nothing where the
/// bytes are no JSON text.
pub uninterp spec fn json_parsed(bytes: Seq<u8>) -> Option<JsonView>;

/// The text that `serde_json` writes for a document.
pub uninterp spec fn json_rendered(value: JsonView) -> Seq<u8>;

/// Copies a `serde_json::Value` into a [`JsonValue`], variant by variant;
/// a number is copied as the text that `serde_json::Number` displays.
///
/// Trusted, and nothing is claimed of the result here: see [`parse_json`].
#[verifier::external_body]
fn from_outside(value: serde_json::Value) -> JsonValue {
    match value {
        serde_json::Value::Null => JsonValue::Null,
        serde_json::Value::Bool(b) => JsonValue::Bool(b),
        serde_json::Value::Number(n) => JsonValue::Number(n.to_string()),
        serde_json::Value::String(s) => JsonValue::Text(s),
        serde_json::Value::Array(items) => JsonValue::Array(
            items.into_iter().map(from_outside).collect(),
        ),
        serde_json::Value::Object(members) => JsonValue::Object(
            members.into_iter().map(|(key, v)| JsonMember { key, value: from_outside(v) }).collect(),
        ),
    }
}

/// Copies a [`JsonValue`] into a `serde_json::Value`, variant by variant; a
/// number is read back from its text with `serde_json::from_str`, and is
/// `null` where the text is no number.
///
/// Trusted, and nothing is claimed of the result here: see [`render_json`].
#[verifier::external_body]
fn to_outside(value: &JsonValue) -> serde_json::Value {
    match value {
        JsonValue::Null => serde_json::Value::Null,
        JsonValue::Bool(b) => serde_json::Value::Bool(*b),
        JsonValue::Number(text) => serde_json::from_str::<serde_json::Number>(text).map_or(
            serde_json::Value::Null,
            serde_json::Value::Number,
        ),
        JsonValue::Text(s) => serde_json::Value::String(s.clone()),
        JsonValue::Array(items) => serde_json::Value::Array(items.iter().map(to_outside).collect()),
        JsonValue::Object(members) => serde_json::Value::Object(
            members.iter().map(|m| (m.key.clone(), to_outside(&m.value))).collect(),
        ),
    }
}

/// Reads a JSON document with `serde_json::from_slice`.
///
/// Trusted: the outcome is taken to depend on the bytes alone. Bytes that
/// `serde_json` rejects give nothing.
#[verifier::external_body]
pub(crate) fn parse_json(bytes: &[u8]) -> (parsed: Option<JsonValue>)
    ensures
        optional_view(parsed) == json_parsed(bytes@),
{
    serde_json::from_slice::<serde_json::Value>(bytes).ok().map(from_outside)
}

/// Writes a JSON document with `serde_json::to_vec`.
///
/// Trusted: the text is taken to depend on the document alone.
#[verifier::external_body]
pub(crate) fn render_json(value: &JsonValue) -> (bytes: Vec<u8>)
    ensures
        bytes@ == json_rendered(value@),
{
    serde_json::to_vec(&to_outside(value)).unwrap_or_default()
}

} // verus!
