use roboat::client::{create_cookie_string_header, ClientState, RetryStep};
use roboat::{RoboatError, User};

#[test]
fn cookie_header_is_built_from_the_credential() {
    let header = create_cookie_string_header("my-secret-token");
    assert_eq!(header, ".ROBLOSECURITY=my-secret-token");
}

#[test]
fn new_state_with_credential_has_cookie_and_empty_token() {
    let state = ClientState::new(Some("my-secret-token".to_string()));
    assert_eq!(state.cookie_string().unwrap(), ".ROBLOSECURITY=my-secret-token");
    assert_eq!(state.xcsrf(), "");
    assert_eq!(state.user_id(), None);
}

#[test]
fn new_state_without_credential_fails_fast_on_cookie() {
    let state = ClientState::new(None);
    let err = state.cookie_string().unwrap_err();
    assert!(matches!(err, RoboatError::RoblosecurityNotSet));
}

#[test]
fn set_xcsrf_replaces_the_token() {
    let mut state = ClientState::new(None);
    state.set_xcsrf("token-1".to_string());
    assert_eq!(state.xcsrf(), "token-1");
    state.set_xcsrf("token-2".to_string());
    assert_eq!(state.xcsrf(), "token-2");
}

#[test]
fn retry_step_finishes_successes_without_touching_state() {
    let mut state = ClientState::new(None);
    state.set_xcsrf("original".to_string());
    let step = state.csrf_retry_step::<u64>(Ok(17));
    assert!(matches!(step, RetryStep::Finished(Ok(17))));
    assert_eq!(state.xcsrf(), "original");
}

#[test]
fn retry_step_finishes_other_errors_without_retrying() {
    let mut state = ClientState::new(None);
    state.set_xcsrf("original".to_string());
    let step = state.csrf_retry_step::<u64>(Err(RoboatError::TooManyRequests));
    assert!(matches!(step, RetryStep::Finished(Err(RoboatError::TooManyRequests))));
    assert_eq!(state.xcsrf(), "original");
}

#[test]
fn retry_step_absorbs_stale_token_and_demands_one_replay() {
    // Retry idempotence: the first attempt fails with a stale token, the
    // replacement is stored, and the replayed attempt's success is the
    // final result.
    let mut state = ClientState::new(None);
    state.set_xcsrf("old-token".to_string());
    let first: Result<u64, RoboatError> = Err(RoboatError::InvalidXcsrf("new-token".to_string()));
    let step = state.csrf_retry_step(first);
    assert!(matches!(step, RetryStep::RetryOnce));
    assert_eq!(state.xcsrf(), "new-token");
    let second: Result<u64, RoboatError> = Ok(99);
    // Under the retry-once convention the second outcome is returned as-is.
    assert_eq!(second.unwrap(), 99);
}

#[test]
fn retry_step_surfaces_a_second_stale_token_without_a_third_attempt() {
    // Retry termination: a second stale-token failure is handed to the
    // caller; the step function is consulted once per public call, so no
    // loop can form.
    let mut state = ClientState::new(None);
    let first: Result<u64, RoboatError> = Err(RoboatError::InvalidXcsrf("token-1".to_string()));
    let step = state.csrf_retry_step(first);
    assert!(matches!(step, RetryStep::RetryOnce));
    assert_eq!(state.xcsrf(), "token-1");
    // The replayed attempt fails with a stale token again; its error is
    // returned verbatim rather than fed back into the convention.
    let second: Result<u64, RoboatError> = Err(RoboatError::InvalidXcsrf("token-2".to_string()));
    let surfaced = second.unwrap_err();
    assert!(matches!(surfaced, RoboatError::InvalidXcsrf(t) if t == "token-2"));
    // The stored token is still the one from the first rejection.
    assert_eq!(state.xcsrf(), "token-1");
}

#[test]
fn identity_is_fetched_once_and_cached() {
    // Identity caching: the first lookup misses, so exactly one network
    // call is needed; after the fetched record is stored, later lookups
    // of every identity field hit the cache.
    let mut state = ClientState::new(Some("secret".to_string()));
    let mut network_calls = 0;

    if state.user_id().is_none() {
        network_calls += 1;
        state.set_user_information(User {
            user_id: 2207291,
            username: "linkmon99".to_string(),
            display_name: "linkmon".to_string(),
        });
    }
    assert_eq!(state.user_id(), Some(2207291));

    if state.display_name().is_none() {
        network_calls += 1;
    }
    assert_eq!(state.display_name().unwrap(), "linkmon");
    assert_eq!(state.username().unwrap(), "linkmon99");
    assert_eq!(network_calls, 1);
}

#[test]
fn forced_refresh_absorbs_a_stale_token_as_success() {
    let mut state = ClientState::new(None);
    let outcome: Result<u64, RoboatError> =
        Err(RoboatError::InvalidXcsrf("fresh-token".to_string()));
    assert!(state.absorb_refreshed_xcsrf(outcome).is_ok());
    assert_eq!(state.xcsrf(), "fresh-token");

    // A valid token means the refresh request itself succeeded.
    let outcome: Result<u64, RoboatError> = Ok(0);
    assert!(state.absorb_refreshed_xcsrf(outcome).is_ok());
    assert_eq!(state.xcsrf(), "fresh-token");

    // Any other failure surfaces unchanged.
    let outcome: Result<u64, RoboatError> = Err(RoboatError::TooManyRequests);
    let err = state.absorb_refreshed_xcsrf(outcome).unwrap_err();
    assert!(matches!(err, RoboatError::TooManyRequests));
}
