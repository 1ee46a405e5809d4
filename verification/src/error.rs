//! The error every endpoint answers with: a message and an HTTP status,
//! rendered as `{"error": message}`.
use crate::outside::encoding::{json_quote, json_string};
use vstd::prelude::*;

verus! {

/// `200 OK`.
pub const STATUS_OK: u16 = 200;

/// `302 Found`.
pub const STATUS_FOUND: u16 = 302;

/// `400 Bad Request`.
pub const STATUS_BAD_REQUEST: u16 = 400;

/// `403 Forbidden`.
pub const STATUS_FORBIDDEN: u16 = 403;

/// `500 Internal Server Error`.
pub const STATUS_INTERNAL_SERVER_ERROR: u16 = 500;

/// The message the server gives for malformed requests.
pub open spec fn buzzer() -> Seq<char> {
    "[\u{1d404}\u{1d417}\u{1d413}\u{1d411}\u{1d404}\u{1d40c}\u{1d404}\u{1d40b}\u{1d418} \u{1d40b}\u{1d40e}\u{1d414}\u{1d403} \u{1d408}\u{1d40d}\u{1d402}\u{1d40e}\u{1d411}\u{1d411}\u{1d404}\u{1d402}\u{1d413} \u{1d401}\u{1d414}\u{1d419}\u{1d419}\u{1d404}\u{1d411}]"@
}

/// The message the server gives for malformed requests.
pub fn extremely_loud_incorrect_buzzer() -> (r: &'static str)
    ensures
        r@ == buzzer(),
{
    "[\u{1d404}\u{1d417}\u{1d413}\u{1d411}\u{1d404}\u{1d40c}\u{1d404}\u{1d40b}\u{1d418} \u{1d40b}\u{1d40e}\u{1d414}\u{1d403} \u{1d408}\u{1d40d}\u{1d402}\u{1d40e}\u{1d411}\u{1d411}\u{1d404}\u{1d402}\u{1d413} \u{1d401}\u{1d414}\u{1d419}\u{1d419}\u{1d404}\u{1d411}]"
}

/// An error with the HTTP status it is answered with.
#[derive(Debug)]
pub struct ApiError {
    pub message: String,
    pub status: u16,
}

/// The body an error is answered with: `{"error":` and the message as a JSON
/// string, then `}`.
pub open spec fn error_body(message: Seq<char>) -> Seq<char> {
    "{\"error\":"@ + json_string(message) + "}"@
}

impl ApiError {
    /// Whether this error carries `message` and `status`.
    pub open spec fn is(self, message: Seq<char>, status: u16) -> bool {
        self.message@ == message && self.status == status
    }

    /// An error from any failure, answered with `500`.
    pub fn from_message(message: &str) -> (r: ApiError)
        ensures
            r.is(message@, STATUS_INTERNAL_SERVER_ERROR),
    {
        ApiError { message: message.to_owned(), status: STATUS_INTERNAL_SERVER_ERROR }
    }

    /// An error with a chosen status.
    pub fn with_status(message: &str, status: u16) -> (r: ApiError)
        ensures
            r.is(message@, status),
    {
        ApiError { message: message.to_owned(), status }
    }

    /// The status and the JSON body this error is answered with.
    pub fn into_response(&self) -> (r: (u16, String))
        ensures
            r.0 == self.status,
            r.1@ == error_body(self.message@),
    {
        let mut body = String::from_str("{\"error\":");
        let quoted = json_quote(self.message.as_str());
        body.append(quoted.as_str());
        body.append("}");
        (self.status, body)
    }
}

/// Gives a failed result the status `code`; a success passes unchanged.
pub fn with_status_code<T>(r: Result<T, String>, code: u16) -> (out: Result<T, ApiError>)
    ensures
        match r {
            Ok(v) => out == Ok::<T, ApiError>(v),
            Err(m) => out matches Err(e) && e.is(m@, code),
        },
{
    match r {
        Ok(v) => Ok(v),
        Err(m) => Err(ApiError { message: m, status: code }),
    }
}

} // verus!
