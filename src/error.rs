//! The ways a lookup can fail.

use vstd::prelude::*;
use crate::json::JsonKind;

verus! {

/// Why a lookup failed. Each failure is final: nothing is retried.
#[derive(Clone, Debug, PartialEq, Eq)]
pub enum GeoError {
    /// The address is private or otherwise not global; it was never sent.
    InvalidAddress(String),
    /// The name names none of the services.
    UnknownService(String),
    /// The request did not complete, or the service answered with a failure
    /// status; holds the service's host.
    TransportError(String),
    /// The answer is not well-formed JSON; holds the parser's message.
    ParseError(String),
    /// A required key is missing from the answer.
    MissingField(String),
    /// A required key holds a value of another kind.
    TypeMismatch { field: String, expected: JsonKind, found: JsonKind },
    /// The service reported that its query limit is used up; holds the
    /// service's host.
    QuotaExceeded(String),
}

/// The model of a [`GeoError`], with text as sequences of characters.
pub enum GeoErrorModel {
    InvalidAddress(Seq<char>),
    UnknownService(Seq<char>),
    TransportError(Seq<char>),
    ParseError(Seq<char>),
    MissingField(Seq<char>),
    TypeMismatch { field: Seq<char>, expected: JsonKind, found: JsonKind },
    QuotaExceeded(Seq<char>),
}

impl View for GeoError {
    type V = GeoErrorModel;

    open spec fn view(&self) -> GeoErrorModel {
        match self {
            GeoError::InvalidAddress(a) => GeoErrorModel::InvalidAddress(a@),
            GeoError::UnknownService(n) => GeoErrorModel::UnknownService(n@),
            GeoError::TransportError(h) => GeoErrorModel::TransportError(h@),
            GeoError::ParseError(m) => GeoErrorModel::ParseError(m@),
            GeoError::MissingField(k) => GeoErrorModel::MissingField(k@),
            GeoError::TypeMismatch { field, expected, found } => GeoErrorModel::TypeMismatch {
                field: field@,
                expected: *expected,
                found: *found,
            },
            GeoError::QuotaExceeded(h) => GeoErrorModel::QuotaExceeded(h@),
        }
    }
}

/// The name of a kind, as a message shows it.
pub open spec fn kind_name(k: JsonKind) -> Seq<char> {
    match k {
        JsonKind::Null => "null"@,
        JsonKind::Bool => "boolean"@,
        JsonKind::Number => "number"@,
        JsonKind::Text => "string"@,
        JsonKind::Array => "array"@,
        JsonKind::Object => "object"@,
    }
}

/// The message that describes an error to a person.
pub open spec fn message_of(e: GeoErrorModel) -> Seq<char> {
    match e {
        GeoErrorModel::InvalidAddress(a) => "Invalid address: "@ + a + " is not a global address"@,
        GeoErrorModel::UnknownService(n) => "Unknown service: "@ + n,
        GeoErrorModel::TransportError(h) => "HTTP Request Error: couldn't connect to "@ + h,
        GeoErrorModel::ParseError(m) => "JSON Parsing Error: "@ + m,
        GeoErrorModel::MissingField(k) => "JSON Parsing Error: unable to find "@ + k
            + " in parsed JSON"@,
        GeoErrorModel::TypeMismatch { field, expected, found } => "JSON Parsing Error: "@ + field
            + " should be of kind "@ + kind_name(expected) + " but is of kind "@ + kind_name(
            found,
        ),
        GeoErrorModel::QuotaExceeded(h) => "Query limit reached at "@ + h,
    }
}

impl JsonKind {
    /// The name of the kind, as a message shows it.
    pub fn name(&self) -> (r: &'static str)
        ensures
            r@ == kind_name(*self),
    {
        match self {
            JsonKind::Null => "null",
            JsonKind::Bool => "boolean",
            JsonKind::Number => "number",
            JsonKind::Text => "string",
            JsonKind::Array => "array",
            JsonKind::Object => "object",
        }
    }
}

impl GeoError {
    /// The message that describes the error to a person.
    pub fn message(&self) -> (r: String)
        ensures
            r@ == message_of(self@),
    {
        match self {
            GeoError::InvalidAddress(a) => {
                let mut s = String::from_str("Invalid address: ");
                s.append(a.as_str());
                s.append(" is not a global address");
                s
            },
            GeoError::UnknownService(n) => {
                let mut s = String::from_str("Unknown service: ");
                s.append(n.as_str());
                s
            },
            GeoError::TransportError(h) => {
                let mut s = String::from_str("HTTP Request Error: couldn't connect to ");
                s.append(h.as_str());
                s
            },
            GeoError::ParseError(m) => {
                let mut s = String::from_str("JSON Parsing Error: ");
                s.append(m.as_str());
                s
            },
            GeoError::MissingField(k) => {
                let mut s = String::from_str("JSON Parsing Error: unable to find ");
                s.append(k.as_str());
                s.append(" in parsed JSON");
                s
            },
            GeoError::TypeMismatch { field, expected, found } => {
                let mut s = String::from_str("JSON Parsing Error: ");
                s.append(field.as_str());
                s.append(" should be of kind ");
                s.append(expected.name());
                s.append(" but is of kind ");
                s.append(found.name());
                s
            },
            GeoError::QuotaExceeded(h) => {
                let mut s = String::from_str("Query limit reached at ");
                s.append(h.as_str());
                s
            },
        }
    }
}

} // verus!
