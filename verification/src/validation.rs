//! The response validator: converts a completed HTTP outcome into either a
//! guaranteed-success response or a classified [`RoboatError`].
//!
//! The remote service conflates several unrelated failure semantics (stale
//! security token, business-rule rejection, bot challenge) under the same
//! 403 status code; the only way to tell them apart is to decode the body
//! and inspect two response headers. That decision tree lives here, fully
//! specified status by status.

use vstd::prelude::*;

verus! {

use crate::RoboatError;

/// Roblox's error response body, used when a status code of 400 or 403 is
/// given. Only the first error is consulted when converting to a
/// [`RoboatError`].
#[derive(Clone, Debug, PartialEq, Eq)]
pub struct RobloxErrorRaw {
    /// The error code (not status code) returned by the service.
    pub code: u16,
    /// The error message returned by the service.
    pub message: String,
}

/// Everything the validator reads from a completed HTTP response: the
/// status code, the two headers it consults, and the raw body text.
#[derive(Clone, Debug)]
pub struct HttpResponse {
    /// The numeric HTTP status code.
    pub status: u16,
    /// The value of the CSRF token response header, when present.
    pub xcsrf_header: Option<String>,
    /// The value of the challenge-metadata response header, when present.
    /// The header carries base64-encoded JSON.
    pub challenge_metadata_header: Option<String>,
    /// The response body.
    pub body: String,
}

/// The error list that the service's JSON error-body format decodes to:
/// each entry's code and message, in order; nothing when the body is not
/// a document of that format.
pub uninterp spec fn roblox_errors_of(body: Seq<char>) -> Option<Seq<(u16, Seq<char>)>>;

/// The bytes that a base64 text decodes to under the standard alphabet;
/// nothing when the text is not valid base64.
pub uninterp spec fn base64_decoded(s: Seq<char>) -> Option<Seq<u8>>;

/// The challenge id carried inside a decoded challenge-metadata JSON
/// document; nothing when the document is not of the expected shape.
pub uninterp spec fn challenge_id_of(metadata: Seq<u8>) -> Option<Seq<char>>;

/// Relies on serde_json::from_str: decodes the service's error body format
/// `{"errors": [{"code": .., "message": ..}, ..]}`, handing back each
/// error's code and message in order.
#[verifier::external_body]
fn parse_error_body(body: &str) -> (r: Option<Vec<RobloxErrorRaw>>)
    ensures
        r is Some <==> roblox_errors_of(body@) is Some,
        r is Some ==> {
            let parsed = roblox_errors_of(body@)->0;
            &&& r->0@.len() == parsed.len()
            &&& forall|i: int|
                0 <= i < parsed.len() ==> #[trigger] r->0@[i].code == parsed[i].0 && r->0@[i].message@
                    == parsed[i].1
        },
{
    let document: serde_json::Value = serde_json::from_str(body).ok()?;
    let errors = document.get("errors")?.as_array()?;
    let mut out = Vec::new();
    for error in errors {
        let code = u16::try_from(error.get("code")?.as_u64()?).ok()?;
        let message = error.get("message")?.as_str()?.to_string();
        out.push(RobloxErrorRaw { code, message });
    }
    Some(out)
}

/// Relies on base64's Engine::decode with the standard-alphabet engine
/// to decode a header value.
#[verifier::external_body]
fn decode_base64(s: &str) -> (r: Option<Vec<u8>>)
    ensures
        r is Some <==> base64_decoded(s@) is Some,
        r is Some ==> r->0@ == base64_decoded(s@)->0,
{
    base64::Engine::decode(&base64::engine::general_purpose::STANDARD, s).ok()
}

/// Relies on serde_json::from_slice: reads the challenge id field out of
/// the decoded challenge-metadata JSON document.
#[verifier::external_body]
fn parse_challenge_metadata(metadata: &[u8]) -> (r: Option<String>)
    ensures
        r is Some <==> challenge_id_of(metadata@) is Some,
        r is Some ==> r->0@ == challenge_id_of(metadata@)->0,
{
    let document: serde_json::Value = match serde_json::from_slice(metadata) {
        Ok(v) => v,
        Err(_) => return None,
    };
    match document.get("challengeId").and_then(|c| c.as_str()) {
        Some(id) => Some(id.to_string()),
        None => None,
    }
}

/// The stale-token outcome of a 403: the replacement token from the CSRF
/// header when one was sent, and the token-not-returned error otherwise.
pub open spec fn stale_token_outcome(resp: HttpResponse, e: RoboatError) -> bool {
    match resp.xcsrf_header {
        Some(token) => e == RoboatError::InvalidXcsrf(token),
        None => e == RoboatError::XcsrfNotReturned,
    }
}

/// The challenge outcome of a 403: the challenge id is extracted from the
/// challenge-metadata header (base64-encoded JSON); a missing or
/// undecodable header is an unknown 403 format.
pub open spec fn challenge_outcome(resp: HttpResponse, e: RoboatError) -> bool {
    match resp.challenge_metadata_header {
        None => e == RoboatError::UnknownStatus403Format,
        Some(encoded) => match base64_decoded(encoded@) {
            None => e == RoboatError::UnknownStatus403Format,
            Some(decoded) => match challenge_id_of(decoded) {
                None => e == RoboatError::UnknownStatus403Format,
                Some(id) => e matches RoboatError::ChallengeRequired(c) && c@ == id,
            },
        },
    }
}

/// How a 403 response is classified. An undecodable body, or a first error
/// with code 0, is a stale-token signal; the known challenge message leads
/// to the challenge outcome; any other first error surfaces as an unknown
/// remote error code; an empty error list is an unknown 403 format.
pub open spec fn classifies_403(resp: HttpResponse, e: RoboatError) -> bool {
    match roblox_errors_of(resp.body@) {
        None => stale_token_outcome(resp, e),
        Some(errors) => if errors.len() == 0 {
            e == RoboatError::UnknownStatus403Format
        } else {
            let code = errors[0].0;
            let message = errors[0].1;
            if code == 0 {
                stale_token_outcome(resp, e)
            } else if message != "Challenge is required to authorize the request"@ {
                e matches RoboatError::UnknownRobloxErrorCode { code: c, message: m } && c == code
                    && m@ == message
            } else {
                challenge_outcome(resp, e)
            }
        },
    }
}

/// How a 400 response is classified: the first embedded error surfaces as
/// an unknown remote error code; otherwise the generic bad-request error.
pub open spec fn classifies_400(resp: HttpResponse, e: RoboatError) -> bool {
    match roblox_errors_of(resp.body@) {
        None => e == RoboatError::BadRequest,
        Some(errors) => if errors.len() == 0 {
            e == RoboatError::BadRequest
        } else {
            e matches RoboatError::UnknownRobloxErrorCode { code: c, message: m } && c == errors[0].0
                && m@ == errors[0].1
        },
    }
}

/// How a whole response is validated: a 200 passes through unchanged, and
/// every other status maps to exactly one error kind.
pub open spec fn validates(resp: HttpResponse, r: Result<HttpResponse, RoboatError>) -> bool {
    if resp.status == 200 {
        r == Ok::<HttpResponse, RoboatError>(resp)
    } else if resp.status == 400 {
        r matches Err(e) && classifies_400(resp, e)
    } else if resp.status == 401 {
        r == Err::<HttpResponse, RoboatError>(RoboatError::InvalidRoblosecurity)
    } else if resp.status == 403 {
        r matches Err(e) && classifies_403(resp, e)
    } else if resp.status == 429 {
        r == Err::<HttpResponse, RoboatError>(RoboatError::TooManyRequests)
    } else if resp.status == 500 {
        r == Err::<HttpResponse, RoboatError>(RoboatError::InternalServerError)
    } else {
        r == Err::<HttpResponse, RoboatError>(RoboatError::UnidentifiedStatusCode(resp.status))
    }
}

/// Turns a 403 stale-token rejection into its error: the replacement token
/// when the header carries one, and the token-not-returned error otherwise.
fn stale_token_error(xcsrf_header: Option<String>) -> (e: RoboatError)
    ensures
        match xcsrf_header {
            Some(token) => e == RoboatError::InvalidXcsrf(token),
            None => e == RoboatError::XcsrfNotReturned,
        },
{
    match xcsrf_header {
        Some(token) => RoboatError::InvalidXcsrf(token),
        None => RoboatError::XcsrfNotReturned,
    }
}

/// Processes a 403 response from an endpoint. This status is returned when
/// a challenge is needed or when the xcsrf is stale, and the two can only
/// be told apart by decoding the body and inspecting headers.
pub fn process_403(resp: HttpResponse) -> (e: RoboatError)
    ensures
        classifies_403(resp, e),
{
    let errors = parse_error_body(resp.body.as_str());
    match errors {
        None => stale_token_error(resp.xcsrf_header),
        Some(errors) => {
            if errors.len() == 0 {
                return RoboatError::UnknownStatus403Format;
            }
            let code = errors[0].code;
            if code == 0 {
                return stale_token_error(resp.xcsrf_header);
            }
            if !crate::text::str_eq(
                errors[0].message.as_str(),
                "Challenge is required to authorize the request",
            ) {
                let message = errors[0].message.clone();
                return RoboatError::UnknownRobloxErrorCode { code, message };
            }
            match resp.challenge_metadata_header {
                None => RoboatError::UnknownStatus403Format,
                Some(encoded) => match decode_base64(encoded.as_str()) {
                    None => RoboatError::UnknownStatus403Format,
                    Some(decoded) => match parse_challenge_metadata(decoded.as_slice()) {
                        None => RoboatError::UnknownStatus403Format,
                        Some(id) => RoboatError::ChallengeRequired(id),
                    },
                },
            }
        },
    }
}

/// Processes a status code 400 response from an endpoint. Although this
/// usually just returns the bad-request error, sometimes the service
/// embeds an error in the response.
pub fn process_400(resp: HttpResponse) -> (e: RoboatError)
    ensures
        classifies_400(resp, e),
{
    match parse_error_body(resp.body.as_str()) {
        None => RoboatError::BadRequest,
        Some(errors) => {
            if errors.len() == 0 {
                return RoboatError::BadRequest;
            }
            let code = errors[0].code;
            let message = errors[0].message.clone();
            RoboatError::UnknownRobloxErrorCode { code, message }
        },
    }
}

/// Maps every non-200 status code to its error kind; a 200 response is
/// passed through unchanged.
pub fn handle_non_200_status_codes(resp: HttpResponse) -> (r: Result<HttpResponse, RoboatError>)
    ensures
        validates(resp, r),
{
    let status = resp.status;
    if status == 200 {
        Ok(resp)
    } else if status == 400 {
        Err(process_400(resp))
    } else if status == 401 {
        Err(RoboatError::InvalidRoblosecurity)
    } else if status == 403 {
        Err(process_403(resp))
    } else if status == 429 {
        Err(RoboatError::TooManyRequests)
    } else if status == 500 {
        Err(RoboatError::InternalServerError)
    } else {
        Err(RoboatError::UnidentifiedStatusCode(status))
    }
}

/// Takes the outcome of issuing a request and catches any possible error,
/// whether a transport failure or a non-200 status code.
///
/// If this returns successfully, the response is guaranteed to have a
/// status code of 200 and to be the response that came in, unchanged.
pub fn validate_request_result(request_result: Result<HttpResponse, reqwest::Error>) -> (r: Result<
    HttpResponse,
    RoboatError,
>)
    ensures
        request_result matches Ok(resp) ==> validates(resp, r),
        request_result matches Err(transport) ==> r == Err::<HttpResponse, RoboatError>(
            RoboatError::ReqwestError(transport),
        ),
        r matches Ok(resp) ==> request_result matches Ok(original) && resp == original
            && resp.status == 200,
{
    match request_result {
        Ok(response) => handle_non_200_status_codes(response),
        Err(e) => Err(RoboatError::ReqwestError(e)),
    }
}

} // verus!
