//! The uniform error payload and the failure kinds behind it.

use rocket::serde::json::Value;
use vstd::prelude::*;
use vstd::string::*;

verus! {

/// The JSON string literal that stands for a text: the text between double
/// quotes, with the escapes that JSON asks for.
pub uninterp spec fn json_string(text: Seq<char>) -> Seq<char>;

/// Writes a text as a JSON string literal. The work is done by the `Display`
/// of `serde_json::Value` (here under its path in rocket,
/// `rocket::serde::json::Value`), in its compact form, on a `Value::String`
/// that holds the text. The contract gives the result its name and claims
/// nothing else of it.
#[verifier::external_body]
fn encode_json_string(text: &str) -> (r: String)
    ensures
        r@ == json_string(text@),
{
    Value::String(text.to_string()).to_string()
}

/// The response body around an encoded message: a JSON object with the one
/// key `message`.
pub open spec fn framed_body(encoded: Seq<char>) -> Seq<char> {
    "{\"message\":"@ + encoded + "}"@
}

/// Puts an encoded message into the response body.
pub fn frame_body(encoded: &str) -> (r: String)
    ensures
        r@ == framed_body(encoded@),
{
    String::from_str("{\"message\":").concat(encoded).concat("}")
}

/// Why a request failed, as the client is told.
#[derive(Clone, Copy, Debug, PartialEq, Eq, Structural)]
pub enum FailureKind {
    /// A lookup, update or delete by id matched no row.
    NotFound,
    /// The payload was malformed.
    Validation,
    /// The payload broke a constraint of the store.
    Conflict,
    /// The store was unreachable, a query failed, a file could not be read,
    /// or one id matched more than one row.
    Internal,
    /// Background work did not run to its end.
    TaskFailure,
}

impl FailureKind {
    /// The HTTP status that goes with the kind.
    pub open spec fn status_code(self) -> u16 {
        match self {
            FailureKind::NotFound => 404u16,
            FailureKind::Validation => 400u16,
            FailureKind::Conflict => 409u16,
            FailureKind::Internal => 500u16,
            FailureKind::TaskFailure => 500u16,
        }
    }

    /// The HTTP status that goes with the kind.
    pub fn status(&self) -> (r: u16)
        ensures
            r == self.status_code(),
    {
        match self {
            FailureKind::NotFound => 404,
            FailureKind::Validation => 400,
            FailureKind::Conflict => 409,
            FailureKind::Internal => 500,
            FailureKind::TaskFailure => 500,
        }
    }
}

/// How a store operation failed, as the persistence layer reports it.
#[derive(Clone, Copy, Debug, PartialEq, Eq, Structural)]
pub enum StoreFault {
    /// The query ran and matched no row.
    NoRow,
    /// The store refused the row for a constraint.
    ConstraintViolation,
    /// The store could not take the payload as it was written.
    InvalidPayload,
    /// No connection, or the query did not run to its end.
    Unavailable,
}

impl StoreFault {
    /// The failure kind a client sees for a fault of the store.
    pub open spec fn failure_kind(self) -> FailureKind {
        match self {
            StoreFault::NoRow => FailureKind::NotFound,
            StoreFault::ConstraintViolation => FailureKind::Conflict,
            StoreFault::InvalidPayload => FailureKind::Validation,
            StoreFault::Unavailable => FailureKind::Internal,
        }
    }

    /// The failure kind a client sees for a fault of the store.
    pub fn kind(&self) -> (r: FailureKind)
        ensures
            r == self.failure_kind(),
    {
        match self {
            StoreFault::NoRow => FailureKind::NotFound,
            StoreFault::ConstraintViolation => FailureKind::Conflict,
            StoreFault::InvalidPayload => FailureKind::Validation,
            StoreFault::Unavailable => FailureKind::Internal,
        }
    }
}

/// A failed store operation: the fault and the store's own account of it.
#[derive(Debug, PartialEq, Eq)]
pub struct StoreError {
    pub fault: StoreFault,
    pub detail: String,
}

/// The error payload of every operation: a kind, which fixes the status, and
/// a message for the client.
#[derive(Debug, PartialEq, Eq)]
pub struct ResponseError {
    pub kind: FailureKind,
    pub message: String,
}

impl ResponseError {
    /// An error of no more specific kind than an internal failure.
    pub fn new(message: String) -> (r: Self)
        ensures
            r.kind == FailureKind::Internal,
            r.message == message,
    {
        ResponseError { kind: FailureKind::Internal, message }
    }

    /// An error of the given kind.
    pub fn with_kind(kind: FailureKind, message: String) -> (r: Self)
        ensures
            r.kind == kind,
            r.message == message,
    {
        ResponseError { kind, message }
    }

    /// The HTTP status of the response.
    pub fn status(&self) -> (r: u16)
        ensures
            r == self.kind.status_code(),
    {
        self.kind.status()
    }

    /// The response body: the JSON object `{"message": ..}` with the message
    /// as a JSON string.
    pub fn body(&self) -> (r: String)
        ensures
            r@ == framed_body(json_string(self.message@)),
    {
        let encoded = encode_json_string(self.message.as_str());
        frame_body(encoded.as_str())
    }

    /// The text that stands under `message` in the response body.
    pub fn message(&self) -> (r: &str)
        ensures
            r@ == self.message@,
    {
        self.message.as_str()
    }
}

} // verus!
