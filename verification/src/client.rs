//! Checking response bodies for embedded service errors.
//!
//! A successful HTTP status does not mean the request succeeded: the service
//! embeds a structured `{error_code, message}` envelope in the body of a
//! rejected request.  Every response body passes through here before anything
//! is read out of it.

use vstd::prelude::*;
use crate::errors::{ClientError, ErrorResponse};
use crate::json::{json_ok, parse_json};

verus! {

use vstd::string::StringExecFns;

/// The error envelope the JSON codec finds in a body: the error-code and
/// message strings, when the body is a JSON object mapping `error_code` and
/// `message` to strings; nothing otherwise.  Named rather than spelled out:
/// which bodies parse, and to what, is the codec's own definition, a function
/// of the text alone; `probe_envelope` ties the name to it.
pub uninterp spec fn envelope_of(s: Seq<char>) -> Option<(Seq<char>, Seq<char>)>;

/// Relies on serde_json::from_str::<Value>, Value::get and Value::as_str, in
/// that order: Some exactly when the body is a JSON object with string fields
/// `error_code` and `message`, and then exactly those two strings.
#[verifier::external_body]
fn probe_envelope(response: &str) -> (r: Option<(String, String)>)
    ensures
        r is Some <==> envelope_of(response@) is Some,
        r matches Some(f) ==> envelope_of(response@) == Some((f.0@, f.1@)),
{
    let parsed: serde_json::Value = serde_json::from_str(response).ok()?;
    let error_code = parsed.get("error_code")?.as_str()?;
    let message = parsed.get("message")?.as_str()?;
    Some((error_code.to_owned(), message.to_owned()))
}

/// Rejects a response body that carries a service-error envelope: the check
/// fails exactly on a body holding an envelope, and reports that envelope's
/// own fields, even though the transport layer reported success.
pub fn check_for_error_response(response: &str) -> (r: Result<(), ErrorResponse>)
    ensures
        r is Ok <==> envelope_of(response@) is None,
        r matches Err(e) ==> envelope_of(response@) == Some((e.error_code@, e.message@)),
{
    match probe_envelope(response) {
        Some((error_code, message)) => Err(ErrorResponse::new(error_code, message)),
        None => Ok(()),
    }
}

/// The compute half of a checked request: given the body text the transport
/// returned for a request, reject an embedded service error, then parse the
/// body for the caller.  Succeeds exactly when the body is envelope-free,
/// well-formed JSON; transport failures are raised by the caller before this
/// point, so the error here is never `Transport`.
pub fn decode_checked_response(response: &str) -> (r: Result<serde_json::Value, ClientError>)
    ensures
        r is Ok <==> (envelope_of(response@) is None && json_ok(response@)),
        r matches Err(e) ==> (e is Service || e is Decode),
        r matches Err(ClientError::Service(e)) ==> envelope_of(response@) == Some(
            (e.error_code@, e.message@),
        ),
        r matches Err(ClientError::Decode(_)) ==> envelope_of(response@) is None && !json_ok(
            response@,
        ),
{
    if let Err(envelope) = check_for_error_response(response) {
        return Err(ClientError::Service(envelope));
    }
    match parse_json(response) {
        Some(v) => Ok(v),
        None => Err(ClientError::Decode(String::from_str("response body is not valid JSON"))),
    }
}

} // verus!
