//! JSON documents as the rest of the crate reads them: one member at a time,
//! by its key, as a plain value.

use vstd::prelude::*;
use crate::error::GeoError;

verus! {

/// The kind of a JSON value.
#[derive(Clone, Copy, Debug, PartialEq, Eq, Structural)]
pub enum JsonKind {
    Null,
    Bool,
    Number,
    Text,
    Array,
    Object,
}

/// What the top-level object of a document holds under one key.
///
/// A number is kept as its canonical decimal text; arrays and objects are
/// only told apart by their kind.
#[derive(Clone, Debug, PartialEq, Eq)]
pub enum Member {
    Absent,
    Null,
    Bool(bool),
    Number(String),
    Text(String),
    Array,
    Object,
}

/// The model of a [`Member`], with text as sequences of characters.
pub enum MemberModel {
    Absent,
    Null,
    Bool(bool),
    Number(Seq<char>),
    Text(Seq<char>),
    Array,
    Object,
}

impl View for Member {
    type V = MemberModel;

    open spec fn view(&self) -> MemberModel {
        match self {
            Member::Absent => MemberModel::Absent,
            Member::Null => MemberModel::Null,
            Member::Bool(b) => MemberModel::Bool(*b),
            Member::Number(n) => MemberModel::Number(n@),
            Member::Text(s) => MemberModel::Text(s@),
            Member::Array => MemberModel::Array,
            Member::Object => MemberModel::Object,
        }
    }
}

impl MemberModel {
    /// The kind of the value, if there is one under the key.
    pub open spec fn kind(self) -> Option<JsonKind> {
        match self {
            MemberModel::Absent => None,
            MemberModel::Null => Some(JsonKind::Null),
            MemberModel::Bool(_) => Some(JsonKind::Bool),
            MemberModel::Number(_) => Some(JsonKind::Number),
            MemberModel::Text(_) => Some(JsonKind::Text),
            MemberModel::Array => Some(JsonKind::Array),
            MemberModel::Object => Some(JsonKind::Object),
        }
    }
}

impl Member {
    /// The kind of the value, if there is one under the key.
    pub fn kind(&self) -> (r: Option<JsonKind>)
        ensures
            r == self@.kind(),
    {
        match self {
            Member::Absent => None,
            Member::Null => Some(JsonKind::Null),
            Member::Bool(_) => Some(JsonKind::Bool),
            Member::Number(_) => Some(JsonKind::Number),
            Member::Text(_) => Some(JsonKind::Text),
            Member::Array => Some(JsonKind::Array),
            Member::Object => Some(JsonKind::Object),
        }
    }
}

/// Declares `serde_json::Value`, which a [`JsonDocument`] holds unopened.
#[verifier::external_type_specification]
#[verifier::external_body]
pub struct ExValue(serde_json::Value);

/// Whether `text` is one well-formed JSON value (what serde_json accepts).
pub uninterp spec fn is_json(text: Seq<char>) -> bool;

/// The member under `key` of the top-level object of the JSON text `text`;
/// absent where the key is missing or the document is not an object.
pub uninterp spec fn member_at(text: Seq<char>, key: Seq<char>) -> MemberModel;

/// A parsed JSON document, together with the text it was parsed from.
///
/// The only way to make one is [`parse_document`], so `value` is always the
/// parse of `source`.
pub struct JsonDocument {
    value: serde_json::Value,
    source: Ghost<Seq<char>>,
}

impl JsonDocument {
    /// The text this document was parsed from.
    pub closed spec fn source(&self) -> Seq<char> {
        self.source@
    }

    /// Parses JSON text; text that is not well-formed JSON is a
    /// [`GeoError::ParseError`] with the parser's message.
    pub fn parse(text: &str) -> (r: Result<JsonDocument, GeoError>)
        ensures
            r is Ok <==> is_json(text@),
            r matches Ok(d) ==> d.source() == text@,
            r matches Err(e) ==> e is ParseError,
    {
        match parse_document(text) {
            Ok(d) => Ok(d),
            Err(m) => Err(GeoError::ParseError(m)),
        }
    }
}

/// Relies on `serde_json::from_str::<serde_json::Value>`: it succeeds exactly
/// on well-formed JSON text; its error is kept as its message.
#[verifier::external_body]
pub(crate) fn parse_document(text: &str) -> (r: Result<JsonDocument, String>)
    ensures
        r is Ok <==> is_json(text@),
        r matches Ok(d) ==> d.source() == text@,
{
    match serde_json::from_str::<serde_json::Value>(text) {
        Ok(value) => Ok(JsonDocument { value, source: Ghost(text@) }),
        Err(e) => Err(e.to_string()),
    }
}

/// Relies on `serde_json::Value::get` with a string key (a member of an
/// object, `None` otherwise), and on the `Display` of `serde_json::Number`
/// for the text of a number.
#[verifier::external_body]
pub(crate) fn member(doc: &JsonDocument, key: &str) -> (r: Member)
    ensures
        r@ == member_at(doc.source(), key@),
{
    match doc.value.get(key) {
        None => Member::Absent,
        Some(serde_json::Value::Null) => Member::Null,
        Some(serde_json::Value::Bool(b)) => Member::Bool(*b),
        Some(serde_json::Value::Number(n)) => Member::Number(n.to_string()),
        Some(serde_json::Value::String(s)) => Member::Text(s.clone()),
        Some(serde_json::Value::Array(_)) => Member::Array,
        Some(serde_json::Value::Object(_)) => Member::Object,
    }
}

} // verus!
