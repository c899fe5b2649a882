use roboat::validation::{handle_non_200_status_codes, process_400, process_403, HttpResponse};
use roboat::RoboatError;

fn response(status: u16, xcsrf: Option<&str>, metadata: Option<&str>, body: &str) -> HttpResponse {
    HttpResponse {
        status,
        xcsrf_header: xcsrf.map(|s| s.to_string()),
        challenge_metadata_header: metadata.map(|s| s.to_string()),
        body: body.to_string(),
    }
}

#[test]
fn status_200_passes_response_through_unchanged() {
    let resp = response(200, Some("abc"), None, "{\"ok\":true}");
    let validated = handle_non_200_status_codes(resp).unwrap();
    assert_eq!(validated.status, 200);
    assert_eq!(validated.xcsrf_header.as_deref(), Some("abc"));
    assert_eq!(validated.challenge_metadata_header, None);
    assert_eq!(validated.body, "{\"ok\":true}");
}

#[test]
fn status_401_is_invalid_roblosecurity_regardless_of_body() {
    for body in ["", "not json", "{\"errors\":[{\"code\":0,\"message\":\"\"}]}"] {
        let resp = response(401, Some("abc"), None, body);
        let err = handle_non_200_status_codes(resp).unwrap_err();
        assert!(matches!(err, RoboatError::InvalidRoblosecurity));
    }
}

#[test]
fn status_403_undecodable_body_with_header_is_stale_token() {
    let resp = response(403, Some("abc"), None, "not json at all");
    let err = handle_non_200_status_codes(resp).unwrap_err();
    assert!(matches!(err, RoboatError::InvalidXcsrf(t) if t == "abc"));
}

#[test]
fn status_403_undecodable_body_without_header_is_token_not_returned() {
    let resp = response(403, None, None, "not json at all");
    let err = handle_non_200_status_codes(resp).unwrap_err();
    assert!(matches!(err, RoboatError::XcsrfNotReturned));
}

#[test]
fn status_403_error_code_zero_is_disguised_stale_token() {
    let body = "{\"errors\":[{\"code\":0,\"message\":\"\"}]}";
    let resp = response(403, Some("abc"), None, body);
    let err = handle_non_200_status_codes(resp).unwrap_err();
    assert!(matches!(err, RoboatError::InvalidXcsrf(t) if t == "abc"));
}

#[test]
fn status_403_error_code_zero_without_header_is_token_not_returned() {
    let body = "{\"errors\":[{\"code\":0,\"message\":\"\"}]}";
    let resp = response(403, None, None, body);
    let err = handle_non_200_status_codes(resp).unwrap_err();
    assert!(matches!(err, RoboatError::XcsrfNotReturned));
}

#[test]
fn status_403_challenge_message_with_metadata_is_challenge_required() {
    let body = "{\"errors\":[{\"code\":9,\"message\":\"Challenge is required to authorize the request\"}]}";
    // base64 of {"challengeId":"xyz"}
    let metadata = "eyJjaGFsbGVuZ2VJZCI6Inh5eiJ9";
    let resp = response(403, Some("abc"), Some(metadata), body);
    let err = handle_non_200_status_codes(resp).unwrap_err();
    assert!(matches!(err, RoboatError::ChallengeRequired(id) if id == "xyz"));
}

#[test]
fn status_403_unknown_code_carries_code_and_message() {
    let body = "{\"errors\":[{\"code\":55,\"message\":\"Something else\"}]}";
    let resp = response(403, Some("abc"), None, body);
    let err = handle_non_200_status_codes(resp).unwrap_err();
    assert!(
        matches!(err, RoboatError::UnknownRobloxErrorCode { code, message } if code == 55 && message == "Something else")
    );
}

#[test]
fn status_403_empty_error_list_is_unknown_403_format() {
    let resp = response(403, Some("abc"), None, "{\"errors\":[]}");
    let err = handle_non_200_status_codes(resp).unwrap_err();
    assert!(matches!(err, RoboatError::UnknownStatus403Format));
}

#[test]
fn status_403_challenge_message_without_metadata_is_unknown_403_format() {
    let body = "{\"errors\":[{\"code\":9,\"message\":\"Challenge is required to authorize the request\"}]}";
    let resp = response(403, None, None, body);
    let err = handle_non_200_status_codes(resp).unwrap_err();
    assert!(matches!(err, RoboatError::UnknownStatus403Format));
}

#[test]
fn status_403_challenge_message_with_undecodable_metadata_is_unknown_403_format() {
    let body = "{\"errors\":[{\"code\":9,\"message\":\"Challenge is required to authorize the request\"}]}";
    let resp = response(403, None, Some("!!! not base64 !!!"), body);
    let err = handle_non_200_status_codes(resp).unwrap_err();
    assert!(matches!(err, RoboatError::UnknownStatus403Format));
}

#[test]
fn status_403_challenge_metadata_without_challenge_id_is_unknown_403_format() {
    let body = "{\"errors\":[{\"code\":9,\"message\":\"Challenge is required to authorize the request\"}]}";
    // base64 of [1,2,3], which is valid JSON with no challenge id
    let resp = response(403, None, Some("WzEsMiwzXQ=="), body);
    let err = handle_non_200_status_codes(resp).unwrap_err();
    assert!(matches!(err, RoboatError::UnknownStatus403Format));
}

#[test]
fn status_403_challenge_metadata_with_extra_fields_still_yields_id() {
    let body = "{\"errors\":[{\"code\":9,\"message\":\"Challenge is required to authorize the request\"}]}";
    // base64 of {"challengeId":"xyz","actionType":"Generic"}
    let metadata = "eyJjaGFsbGVuZ2VJZCI6Inh5eiIsImFjdGlvblR5cGUiOiJHZW5lcmljIn0=";
    let resp = response(403, None, Some(metadata), body);
    let err = process_403(resp);
    assert!(matches!(err, RoboatError::ChallengeRequired(id) if id == "xyz"));
}

#[test]
fn status_400_with_embedded_error_carries_code_and_message() {
    let body = "{\"errors\":[{\"code\":5,\"message\":\"Invalid asset id\"}]}";
    let resp = response(400, None, None, body);
    let err = handle_non_200_status_codes(resp).unwrap_err();
    assert!(
        matches!(err, RoboatError::UnknownRobloxErrorCode { code, message } if code == 5 && message == "Invalid asset id")
    );
}

#[test]
fn status_400_with_undecodable_body_is_bad_request() {
    let resp = response(400, None, None, "not json");
    let err = process_400(resp);
    assert!(matches!(err, RoboatError::BadRequest));
}

#[test]
fn status_400_with_empty_error_list_is_bad_request() {
    let resp = response(400, None, None, "{\"errors\":[]}");
    let err = handle_non_200_status_codes(resp).unwrap_err();
    assert!(matches!(err, RoboatError::BadRequest));
}

#[test]
fn status_429_is_too_many_requests() {
    let resp = response(429, None, None, "");
    let err = handle_non_200_status_codes(resp).unwrap_err();
    assert!(matches!(err, RoboatError::TooManyRequests));
}

#[test]
fn status_500_is_internal_server_error() {
    let resp = response(500, None, None, "");
    let err = handle_non_200_status_codes(resp).unwrap_err();
    assert!(matches!(err, RoboatError::InternalServerError));
}

#[test]
fn other_status_codes_are_unidentified() {
    let resp = response(418, None, None, "");
    let err = handle_non_200_status_codes(resp).unwrap_err();
    assert!(matches!(err, RoboatError::UnidentifiedStatusCode(418)));
}

#[test]
fn only_first_error_of_the_body_is_consulted() {
    let body = "{\"errors\":[{\"code\":55,\"message\":\"first\"},{\"code\":0,\"message\":\"second\"}]}";
    let resp = response(403, Some("abc"), None, body);
    let err = handle_non_200_status_codes(resp).unwrap_err();
    assert!(matches!(err, RoboatError::UnknownRobloxErrorCode { code, message } if code == 55 && message == "first"));
}

#[test]
fn validate_request_result_passes_successes_through() {
    let resp = response(200, None, None, "body");
    let validated = roboat::validation::validate_request_result(Ok(resp)).unwrap();
    assert_eq!(validated.status, 200);
    assert_eq!(validated.body, "body");

    let resp = response(429, None, None, "");
    let err = roboat::validation::validate_request_result(Ok(resp)).unwrap_err();
    assert!(matches!(err, RoboatError::TooManyRequests));
}
