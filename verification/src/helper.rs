//! The privileged helper's request loop: every non-blank request line is
//! answered with one JSON error reply, as the protocol is not served yet.

use vstd::prelude::*;
use vstd::string::StringExecFns;
use crate::text::{strip_leading, strip_trailing, trimmed, unicode_whitespace};

verus! {

/// A scalar value of a reply field.
pub enum JsonScalar {
    Bool(bool),
    Text(String),
}

/// The mathematical value of a `JsonScalar`.
pub enum JsonScalarValue {
    Bool(bool),
    Text(Seq<char>),
}

impl JsonScalar {
    pub open spec fn value(&self) -> JsonScalarValue {
        match self {
            JsonScalar::Bool(b) => JsonScalarValue::Bool(*b),
            JsonScalar::Text(t) => JsonScalarValue::Text(t@),
        }
    }
}

/// The fields of a reply as keys and values.
pub open spec fn field_values(fields: Seq<(String, JsonScalar)>) -> Seq<(Seq<char>, JsonScalarValue)> {
    fields.map_values(|f: (String, JsonScalar)| (f.0@, f.1.value()))
}

/// The compact JSON text `serde_json` writes for the object with these
/// fields (a `serde_json::Map` keeps its keys in sorted order).
pub uninterp spec fn json_object_text(fields: Seq<(Seq<char>, JsonScalarValue)>) -> Seq<char>;

/// Writes the object with the given fields as compact JSON text: the fields
/// are collected into a `serde_json::Map` and the `Value::Object` is rendered
/// with `Display`.
#[verifier::external_body]
fn json_object(fields: &Vec<(String, JsonScalar)>) -> (text: String)
    ensures
        text@ == json_object_text(field_values(fields@)),
{
    let map: serde_json::Map<String, serde_json::Value> = fields
        .iter()
        .map(|(k, v)| match v {
            JsonScalar::Bool(b) => (k.clone(), serde_json::Value::Bool(*b)),
            JsonScalar::Text(t) => (k.clone(), serde_json::Value::String(t.clone())),
        })
        .collect();
    serde_json::Value::Object(map).to_string()
}

pub open spec fn unserved_message() -> Seq<char> {
    "helper not implemented in Phase 0 — see docs/ARCHITECTURE.md"@
}

/// The fields of the reply to a request the helper does not serve:
/// `ok` is false and `error` says why.
pub open spec fn unserved_reply_fields() -> Seq<(Seq<char>, JsonScalarValue)> {
    seq![
        ("ok"@, JsonScalarValue::Bool(false)),
        ("error"@, JsonScalarValue::Text(unserved_message())),
    ]
}

pub open spec fn blank(line: Seq<char>) -> bool {
    strip_trailing(strip_leading(line, |c: char| unicode_whitespace(c)), |c: char| unicode_whitespace(c)).len() == 0
}

/// The reply to one request line: none for a blank line, otherwise the JSON
/// object `{"ok": false, "error": <why>}`.
pub fn helper_reply(line: &str) -> (reply: Option<String>)
    ensures
        match reply {
            None => blank(line@),
            Some(r) => !blank(line@) && r@ == json_object_text(unserved_reply_fields()),
        },
{
    let t = trimmed(line);
    if t.unicode_len() == 0 {
        None
    } else {
        let mut fields: Vec<(String, JsonScalar)> = Vec::new();
        fields.push((String::from_str("ok"), JsonScalar::Bool(false)));
        fields.push((
            String::from_str("error"),
            JsonScalar::Text(String::from_str("helper not implemented in Phase 0 — see docs/ARCHITECTURE.md")),
        ));
        assert(field_values(fields@) =~= unserved_reply_fields());
        Some(json_object(&fields))
    }
}

} // verus!
