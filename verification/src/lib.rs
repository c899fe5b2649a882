//! A typed client library for a set of legacy Roblox web endpoints.
//!
//! The heart of the library is the shared request-validation pipeline:
//! every endpoint call funnels its raw HTTP outcome through
//! [`validation::validate_request_result`], which either passes a success
//! response through unchanged or classifies the failure as one
//! [`RoboatError`] kind. State-changing calls additionally follow the
//! retry-once convention of [`client::ClientState::csrf_retry_step`]: a
//! request rejected for a stale CSRF token is replayed exactly once with
//! the replacement token the server attached to the rejection.

use vstd::prelude::*;

pub mod assetdelivery;
pub mod bedev2;
pub mod catalog;
pub mod client;
pub mod economy;
pub mod friends;
pub mod games;
pub mod groups;
pub mod presence;
pub mod private_messages;
pub mod text;
pub mod thumbnails;
pub mod trades;
pub mod users;
pub mod validation;

verus! {

use crate::bedev2::PurchaseNonTradableLimitedError;

/// The transport error type of the HTTP client that carries requests for
/// this library. Opaque here: it is only stored and handed back to callers.
#[verifier::external_type_specification]
#[verifier::external_body]
pub struct ExReqwestError(reqwest::Error);

/// The standard I/O error type, carried verbatim inside [`RoboatError`].
#[verifier::external_type_specification]
#[verifier::external_body]
pub struct ExIoError(std::io::Error);

/// The maximum amount of instances to return from an endpoint. Used as a
/// parameter in various methods that call endpoints.
///
/// This is an enum instead of an integer as these are usually the only
/// values accepted for the limit parameter.
#[derive(Clone, Copy, PartialEq, Eq, Structural, Debug)]
pub enum Limit {
    Ten,
    TwentyFive,
    Fifty,
    Hundred,
}

impl Limit {
    /// The numeric value sent to the endpoint for this limit.
    pub open spec fn spec_to_u64(self) -> u64 {
        match self {
            Limit::Ten => 10,
            Limit::TwentyFive => 25,
            Limit::Fifty => 50,
            Limit::Hundred => 100,
        }
    }

    /// Converts the limit to the number it stands for.
    pub fn to_u64(self) -> (r: u64)
        ensures
            r == self.spec_to_u64(),
    {
        match self {
            Limit::Ten => 10,
            Limit::TwentyFive => 25,
            Limit::Fifty => 50,
            Limit::Hundred => 100,
        }
    }
}

/// The universal error used in this crate. Exactly one kind is active per
/// failed call; kinds are never combined.
#[derive(Debug)]
pub enum RoboatError {
    /// Used when an endpoint returns status code 429.
    TooManyRequests,
    /// Used when an endpoint returns status code 500.
    InternalServerError,
    /// Used when an endpoint returns status code 400 and does not embed an
    /// error.
    BadRequest,
    /// Returned when the user does not have a valid roblosecurity, or does
    /// not have authorization to access the endpoint.
    InvalidRoblosecurity,
    /// Returned when an error response carries a Roblox error code that this
    /// library does not recognize.
    UnknownRobloxErrorCode {
        /// The error code (not status code) returned by the service.
        code: u16,
        /// The error message returned by the service.
        message: String,
    },
    /// Used when no roblosecurity is set, on an endpoint that requires it.
    RoblosecurityNotSet,
    /// Used for any status codes that do not fit any other variant of this
    /// error.
    UnidentifiedStatusCode(u16),
    /// Used when the response from an API endpoint is malformed.
    MalformedResponse,
    /// Used when an endpoint rejects a request due to an invalid xcsrf.
    /// Carries the replacement token taken from the response headers.
    InvalidXcsrf(String),
    /// Used when an endpoint returns a 403 status code, doesn't need a
    /// challenge, but the response does not contain a new xcsrf.
    XcsrfNotReturned,
    /// Used when an endpoint returns a 403 status code because an
    /// out-of-band challenge must be completed first. Carries the challenge
    /// id needed to complete that challenge.
    ChallengeRequired(String),
    /// Used when an endpoint returns a 403 status code that can be parsed,
    /// but whose contents fit no known 403 shape.
    UnknownStatus403Format,
    /// Domain errors sometimes thrown when purchasing a non-tradable
    /// limited.
    PurchaseNonTradableLimitedError(PurchaseNonTradableLimitedError),
    /// Used for any transport-level error that occurs.
    ReqwestError(reqwest::Error),
    /// Used when an io error occurs.
    IoError(std::io::Error),
    /// Used when a file system path passed to a method is invalid.
    InvalidPath(String),
}

/// The type of the challenge required to complete a request.
#[derive(Clone, Copy, PartialEq, Eq, Structural, Debug)]
pub enum ChallengeType {
    /// A two step verification code (an authenticator or an email).
    TwoStep,
}

impl ChallengeType {
    /// Parses the challenge type out of the challenge-type response header.
    pub fn try_from(raw: &str) -> (r: Result<ChallengeType, RoboatError>)
        ensures
            raw@ == "twostepverification"@ ==> r == Ok::<ChallengeType, RoboatError>(
                ChallengeType::TwoStep,
            ),
            raw@ != "twostepverification"@ ==> r == Err::<ChallengeType, RoboatError>(
                RoboatError::MalformedResponse,
            ),
    {
        if crate::text::str_eq(raw, "twostepverification") {
            Ok(ChallengeType::TwoStep)
        } else {
            Err(RoboatError::MalformedResponse)
        }
    }
}

/// The challenge info returned when a challenge is required to complete a
/// request.
#[derive(Clone, Debug)]
pub struct ChallengeInfo {
    /// The string in the returned challenge-id header.
    pub challenge_id: String,
    /// The string in the returned challenge-metadata header. This is
    /// base64-encoded JSON.
    pub challenge_metadata: String,
    /// The type of challenge parsed from the challenge-type header.
    pub challenge_type: ChallengeType,
}

/// The universal struct for a Roblox user in this crate.
#[derive(Clone, Debug)]
pub struct User {
    /// The unique, stable id of the user.
    pub user_id: u64,
    /// The account name of the user.
    pub username: String,
    /// The display name of the user.
    pub display_name: String,
}

} // verus!
