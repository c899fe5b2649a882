//! The per-session client state and the retry-once convention.
//!
//! A client handle owns one session credential, one current CSRF token and
//! one lazily filled identity record. The I/O shell around this library
//! keeps a [`ClientState`] behind a read/write lock and drives each
//! authenticated call through [`ClientState::csrf_retry_step`]: a first
//! attempt rejected for a stale token stores the replacement and is
//! replayed exactly once; everything else finishes immediately.

use vstd::prelude::*;
use vstd::string::*;

verus! {

use crate::{RoboatError, User};

/// Builds the cookie header value that presents the session credential.
pub fn create_cookie_string_header(roblosecurity: &str) -> (r: String)
    ensures
        r@ == ".ROBLOSECURITY="@ + roblosecurity@,
{
    String::from_str(".ROBLOSECURITY=").concat(roblosecurity)
}

/// The mutable per-session fields shared by every call made through one
/// client handle: the prebuilt cookie header, the current CSRF token, and
/// the cached identity of the session's user.
pub struct ClientState {
    /// The full cookie header value that includes the roblosecurity token.
    cookie_string: Option<String>,
    /// The current value for the CSRF request header.
    xcsrf: String,
    /// The cached user id, username, and display name of the session user.
    user_information: Option<User>,
}

/// What the retry-once convention does with a first attempt's outcome:
/// either the call is finished with this result, or the replacement token
/// must be stored and the attempt replayed exactly once.
pub enum RetryStep<T> {
    /// The outcome of the call; no retry happens.
    Finished(Result<T, RoboatError>),
    /// The stale-token failure was absorbed; replay the attempt once and
    /// return the second outcome as-is.
    RetryOnce,
}

/// The retry-once decision on a first attempt's outcome: only the
/// stale-token failure demands a retry, carrying its replacement token.
pub open spec fn spec_retry_decision<T>(first: Result<T, RoboatError>) -> Option<String> {
    match first {
        Err(RoboatError::InvalidXcsrf(token)) => Some(token),
        _ => None,
    }
}

/// The result the retry-once convention hands to the caller, given the
/// outcomes of the first attempt and (if one was demanded) the replay.
pub open spec fn spec_retry_protocol<T>(
    first: Result<T, RoboatError>,
    second: Result<T, RoboatError>,
) -> Result<T, RoboatError> {
    match spec_retry_decision(first) {
        Some(_) => second,
        None => first,
    }
}

/// How many attempts the retry-once convention makes for a given first
/// outcome: two exactly when the first failed with a stale token, and one
/// otherwise. There is never a third attempt.
pub open spec fn spec_retry_attempts<T>(first: Result<T, RoboatError>) -> int {
    match spec_retry_decision(first) {
        Some(_) => 2,
        None => 1,
    }
}

impl ClientState {
    /// The stored cookie header value, if a credential was set.
    pub closed spec fn spec_cookie_string(&self) -> Option<String> {
        self.cookie_string
    }

    /// The current CSRF token.
    pub closed spec fn spec_xcsrf(&self) -> Seq<char> {
        self.xcsrf@
    }

    /// The cached identity record, if one was fetched.
    pub closed spec fn spec_user_information(&self) -> Option<User> {
        self.user_information
    }

    /// The state as it is after storing a replacement CSRF token.
    pub closed spec fn spec_store_xcsrf(self, xcsrf: String) -> ClientState {
        ClientState { xcsrf, ..self }
    }

    /// The state as it is after caching a fetched identity record.
    pub closed spec fn spec_store_identity(self, user: User) -> ClientState {
        ClientState { user_information: Some(user), ..self }
    }

    /// Whether a lookup of the session user's identity must go to the
    /// network: exactly when nothing is cached yet.
    pub open spec fn spec_identity_fetch_needed(&self) -> bool {
        self.spec_user_information() is None
    }

    /// Creates the state for a new client handle: the cookie is built from
    /// the credential when one is given, the CSRF token starts empty, and
    /// no identity is cached.
    pub fn new(roblosecurity: Option<String>) -> (c: ClientState)
        ensures
            match roblosecurity {
                Some(token) => c.spec_cookie_string() matches Some(cookie) && cookie@
                    == ".ROBLOSECURITY="@ + token@,
                None => c.spec_cookie_string() is None,
            },
            c.spec_xcsrf() == Seq::<char>::empty(),
            c.spec_user_information() is None,
    {
        let cookie_string = match roblosecurity {
            Some(token) => Some(create_cookie_string_header(token.as_str())),
            None => None,
        };
        ClientState { cookie_string, xcsrf: String::new(), user_information: None }
    }

    /// Returns a copy of the cookie header value. If the roblosecurity has
    /// not been set, the credential-not-set error is returned instead and
    /// no network call should be attempted.
    pub fn cookie_string(&self) -> (r: Result<String, RoboatError>)
        ensures
            match self.spec_cookie_string() {
                Some(cookie) => r matches Ok(c) && c@ == cookie@,
                None => r matches Err(e) && e is RoblosecurityNotSet,
            },
    {
        match &self.cookie_string {
            Some(cookie) => Ok(cookie.clone()),
            None => Err(RoboatError::RoblosecurityNotSet),
        }
    }

    /// Returns a copy of the current CSRF token.
    pub fn xcsrf(&self) -> (r: String)
        ensures
            r@ == self.spec_xcsrf(),
    {
        self.xcsrf.clone()
    }

    /// Replaces the CSRF token; readers of the other fields see no change.
    pub fn set_xcsrf(&mut self, xcsrf: String)
        ensures
            *final(self) == old(self).spec_store_xcsrf(xcsrf),
            final(self).spec_xcsrf() == xcsrf@,
            final(self).spec_cookie_string() == old(self).spec_cookie_string(),
            final(self).spec_user_information() == old(self).spec_user_information(),
    {
        self.xcsrf = xcsrf;
    }

    /// Caches the identity record fetched for the session user; readers of
    /// the other fields see no change.
    pub fn set_user_information(&mut self, user_information: User)
        ensures
            *final(self) == old(self).spec_store_identity(user_information),
            final(self).spec_user_information() == Some(user_information),
            final(self).spec_cookie_string() == old(self).spec_cookie_string(),
            final(self).spec_xcsrf() == old(self).spec_xcsrf(),
    {
        self.user_information = Some(user_information);
    }

    /// The cached user id: present exactly when an identity is cached, in
    /// which case no network call is needed to answer.
    pub fn user_id(&self) -> (r: Option<u64>)
        ensures
            match self.spec_user_information() {
                Some(user) => r == Some(user.user_id),
                None => r is None,
            },
            r is None <==> self.spec_identity_fetch_needed(),
    {
        match &self.user_information {
            Some(user) => Some(user.user_id),
            None => None,
        }
    }

    /// The cached username: present exactly when an identity is cached.
    pub fn username(&self) -> (r: Option<String>)
        ensures
            match self.spec_user_information() {
                Some(user) => r matches Some(name) && name@ == user.username@,
                None => r is None,
            },
            r is None <==> self.spec_identity_fetch_needed(),
    {
        match &self.user_information {
            Some(user) => Some(user.username.clone()),
            None => None,
        }
    }

    /// The cached display name: present exactly when an identity is cached.
    pub fn display_name(&self) -> (r: Option<String>)
        ensures
            match self.spec_user_information() {
                Some(user) => r matches Some(name) && name@ == user.display_name@,
                None => r is None,
            },
            r is None <==> self.spec_identity_fetch_needed(),
    {
        match &self.user_information {
            Some(user) => Some(user.display_name.clone()),
            None => None,
        }
    }

    /// Handles a first attempt's outcome under the retry-once convention:
    /// a stale-token failure has its replacement token stored here and
    /// demands exactly one replay; any other outcome, success or failure,
    /// finishes the call unchanged and leaves the state untouched.
    pub fn csrf_retry_step<T>(&mut self, first: Result<T, RoboatError>) -> (step: RetryStep<T>)
        ensures
            match spec_retry_decision(first) {
                Some(token) => step is RetryOnce && *final(self) == old(self).spec_store_xcsrf(
                    token,
                ),
                None => step == RetryStep::Finished(first) && *final(self) == *old(self),
            },
    {
        match first {
            Err(e) => match e {
                RoboatError::InvalidXcsrf(token) => {
                    self.set_xcsrf(token);
                    RetryStep::RetryOnce
                },
                other => RetryStep::Finished(Err(other)),
            },
            Ok(value) => RetryStep::Finished(Ok(value)),
        }
    }

    /// Absorbs the outcome of a forced token refresh: the request was made
    /// only so that the server would say whether the current CSRF token is
    /// still valid, so a stale-token rejection is not an error here — its
    /// replacement token is stored and the refresh has succeeded. Any
    /// other failure surfaces unchanged.
    pub fn absorb_refreshed_xcsrf<T>(&mut self, outcome: Result<T, RoboatError>) -> (r: Result<
        (),
        RoboatError,
    >)
        ensures
            match spec_retry_decision(outcome) {
                Some(token) => r == Ok::<(), RoboatError>(()) && *final(self) == old(
                    self,
                ).spec_store_xcsrf(token),
                None => (match outcome {
                    Ok(_) => r == Ok::<(), RoboatError>(()) && *final(self) == *old(self),
                    Err(e) => r == Err::<(), RoboatError>(e) && *final(self) == *old(self),
                }),
            },
    {
        match outcome {
            Ok(_) => Ok(()),
            Err(e) => match e {
                RoboatError::InvalidXcsrf(token) => {
                    self.set_xcsrf(token);
                    Ok(())
                },
                other => Err(other),
            },
        }
    }
}

/// Retry idempotence: when the first attempt fails with a stale token, the
/// convention makes exactly one replay, the stored token is exactly the
/// replacement that came with the failure, and whatever the replay hands
/// back — in particular a success — is returned to the caller as-is.
pub proof fn lemma_retry_stale_then_second<T>(
    state: ClientState,
    token: String,
    second: Result<T, RoboatError>,
)
    ensures
        spec_retry_protocol(Err::<T, RoboatError>(RoboatError::InvalidXcsrf(token)), second)
            == second,
        spec_retry_attempts::<T>(Err::<T, RoboatError>(RoboatError::InvalidXcsrf(token))) == 2,
        state.spec_store_xcsrf(token).spec_xcsrf() == token@,
        state.spec_store_xcsrf(token).spec_cookie_string() == state.spec_cookie_string(),
        state.spec_store_xcsrf(token).spec_user_information() == state.spec_user_information(),
{
}

/// Retry termination: when the server rejects the replayed attempt with a
/// stale token again, that second failure is surfaced to the caller; there
/// were exactly two attempts and there is never a third.
pub proof fn lemma_retry_stale_twice<T>(first_token: String, second_token: String)
    ensures
        spec_retry_protocol(
            Err::<T, RoboatError>(RoboatError::InvalidXcsrf(first_token)),
            Err::<T, RoboatError>(RoboatError::InvalidXcsrf(second_token)),
        ) == Err::<T, RoboatError>(RoboatError::InvalidXcsrf(second_token)),
        spec_retry_attempts::<T>(Err::<T, RoboatError>(RoboatError::InvalidXcsrf(first_token)))
            == 2,
{
}

/// Any outcome other than a stale-token failure is returned immediately:
/// one attempt, no retry, no state change.
pub proof fn lemma_retry_other_outcome_immediate<T>(
    first: Result<T, RoboatError>,
    second: Result<T, RoboatError>,
)
    requires
        !(first matches Err(RoboatError::InvalidXcsrf(_))),
    ensures
        spec_retry_protocol(first, second) == first,
        spec_retry_attempts(first) == 1,
{
}

/// Identity caching: a lookup needs the network only while no identity is
/// cached; storing one fetched record leaves a state in which every later
/// lookup is answered from the cache, so one fetch is enough for the
/// lifetime of the handle.
pub proof fn lemma_identity_fetched_once(state: ClientState, fetched: User)
    requires
        state.spec_identity_fetch_needed(),
    ensures
        state.spec_store_identity(fetched).spec_user_information() == Some(fetched),
        !state.spec_store_identity(fetched).spec_identity_fetch_needed(),
        state.spec_store_identity(
            fetched,
        ).spec_store_identity(fetched).spec_user_information() == Some(fetched),
{
}

} // verus!
