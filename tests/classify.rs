use modio::error::{error_for_status, ratelimit};
use modio::response::{
    classify_failure, delete_result, parse_count, rate_limit, response_result, RateLimit,
};
use modio::{AuthError, DownloadError, Error, ErrorEnvelope, Kind, Source};

fn envelope(error_ref: u16) -> ErrorEnvelope {
    ErrorEnvelope {
        message: String::from("something failed"),
        errors: vec![(String::from("name"), String::from("too long"))],
        error_ref,
    }
}

fn no_limits() -> RateLimit {
    RateLimit { remaining: None, retry_after: None }
}

#[test]
fn unauthorized_whatever_the_payload() {
    for r in [0u16, 11051, 14000] {
        let e = classify_failure(401, no_limits(), Ok(envelope(r)));
        assert!(e.is_auth());
        assert!(matches!(e.kind, Kind::Auth(AuthError::Unauthorized)));
        assert_eq!(e.error_ref(), Some(r));
    }
    let limits = RateLimit { remaining: Some(3), retry_after: Some(5) };
    let e = classify_failure(401, limits, Ok(envelope(7)));
    assert!(e.is_auth());
}

#[test]
fn forbidden_with_terms_code() {
    let e = classify_failure(403, no_limits(), Ok(envelope(11051)));
    assert!(e.is_terms_acceptance_required());
    assert!(!e.is_auth());
    assert_eq!(e.error_ref(), None);
}

#[test]
fn forbidden_with_other_code() {
    let e = classify_failure(403, no_limits(), Ok(envelope(11052)));
    assert!(e.is_status());
    assert_eq!(e.status(), Some(403));
    assert_eq!(e.error_ref(), Some(11052));
    assert!(matches!(e.source, Some(Source::Envelope(_))));
}

#[test]
fn rate_limit_comes_before_the_payload() {
    let limits = RateLimit { remaining: Some(0), retry_after: Some(5) };
    let e = classify_failure(422, limits, Ok(envelope(13009)));
    assert!(e.is_ratelimited());
    assert!(matches!(e.kind, Kind::RateLimit { retry_after: 300 }));
    assert_eq!(e.error_ref(), None);
}

#[test]
fn rate_limit_needs_both_headers() {
    let limits = RateLimit { remaining: Some(0), retry_after: None };
    let e = classify_failure(429, limits, Ok(envelope(1)));
    assert_eq!(e.status(), Some(429));
    let limits = RateLimit { remaining: Some(1), retry_after: Some(5) };
    let e = classify_failure(429, limits, Ok(envelope(1)));
    assert_eq!(e.status(), Some(429));
}

#[test]
fn rate_limit_seconds_saturate() {
    let e = ratelimit(u64::MAX);
    assert!(matches!(e.kind, Kind::RateLimit { retry_after: u64::MAX }));
    let e = ratelimit(2);
    assert!(matches!(e.kind, Kind::RateLimit { retry_after: 120 }));
}

#[test]
fn validation_error_carries_fields() {
    let e = error_for_status(422, envelope(13009));
    assert!(e.is_validation());
    let (message, errors) = e.validation().unwrap();
    assert_eq!(message, "something failed");
    assert_eq!(errors, &vec![(String::from("name"), String::from("too long"))]);
    assert_eq!(e.error_ref(), Some(13009));
}

#[test]
fn undecodable_error_payload_is_decode_error() {
    let e = classify_failure(500, no_limits(), Err(String::from("expected value")));
    assert!(e.is_decode());
}

#[test]
fn success_yields_payload() {
    let r: Result<u32, Error> = response_result(200, no_limits(), Ok(17), Err(String::new()));
    assert_eq!(r.ok(), Some(17));
    let r: Result<u32, Error> =
        response_result(204, no_limits(), Err(String::from("eof")), Ok(envelope(1)));
    assert!(r.unwrap_err().is_decode());
    let r: Result<u32, Error> = response_result(404, no_limits(), Ok(3), Ok(envelope(15010)));
    assert_eq!(r.unwrap_err().status(), Some(404));
}

#[test]
fn delete_with_empty_body_succeeds() {
    let r = delete_result(204, no_limits(), Err(String::from("EOF")), Err(String::from("EOF")));
    assert!(r.is_ok());
}

#[test]
fn delete_with_validation_payload_fails() {
    let r = delete_result(422, no_limits(), Err(String::from("EOF")), Ok(envelope(13009)));
    let e = r.unwrap_err();
    assert!(e.is_validation());
    assert_eq!(e.error_ref(), Some(13009));
}

#[test]
fn header_counts() {
    assert_eq!(parse_count(b"0"), Some(0));
    assert_eq!(parse_count(b"120"), Some(120));
    assert_eq!(parse_count(b"+7"), Some(7));
    assert_eq!(parse_count(b"18446744073709551615"), Some(u64::MAX));
    assert_eq!(parse_count(b"18446744073709551616"), None);
    assert_eq!(parse_count(b""), None);
    assert_eq!(parse_count(b"+"), None);
    assert_eq!(parse_count(b"-1"), None);
    assert_eq!(parse_count(b"1 2"), None);
    assert_eq!(parse_count(b"abc"), None);
}

#[test]
fn both_headers_read_independently() {
    let l = rate_limit(Some(&b"0"[..]), None);
    assert_eq!(l.remaining, Some(0));
    assert_eq!(l.retry_after, None);
    let l = rate_limit(Some(&b"x"[..]), Some(&b"5"[..]));
    assert_eq!(l.remaining, None);
    assert_eq!(l.retry_after, Some(5));
}

#[test]
fn kind_tests() {
    let e = modio::error::builder(String::from("bad url"));
    assert!(e.is_builder() && !e.is_decode() && !e.is_status());
    let e = modio::error::builder_or_request(false, String::from("timeout"));
    assert!(matches!(e.kind, Kind::Request));
    let e = modio::error::download_error(DownloadError::NoPrimaryFile { game_id: 1, mod_id: 2 });
    assert!(e.is_download());
    let e = modio::error::token_required();
    assert!(e.is_auth());
}

#[test]
fn envelope_text_lists_fields() {
    let e = ErrorEnvelope {
        message: String::from("Validation failed."),
        errors: vec![
            (String::from("name"), String::from("required")),
            (String::from("summary"), String::from("too short")),
        ],
        error_ref: 13009,
    };
    assert_eq!(e.text(), "Validation failed.\n  name: required\n  summary: too short");
    let e = ErrorEnvelope { message: String::from("Gone."), errors: vec![], error_ref: 1 };
    assert_eq!(e.text(), "Gone.");
}

#[test]
fn unauthorized_with_body_that_is_not_json() {
    let e = classify_failure(401, no_limits(), Err(String::from("expected value at line 1")));
    assert!(e.is_auth());
    assert!(!e.is_decode());
    assert!(matches!(e.kind, Kind::Auth(AuthError::Unauthorized)));
    assert_eq!(e.error_ref(), None);
    let r: Result<u8, Error> = response_result(401, no_limits(), Err(String::new()), Err(String::new()));
    assert!(r.unwrap_err().is_auth());
}

#[test]
fn sink_failure_is_io() {
    let e = modio::error::io_error(String::from("disk full"));
    assert!(e.is_io());
    assert!(!e.is_decode() && !e.is_download());
    let e = modio::error::request_error(String::from("timeout"));
    assert!(!e.is_io());
}
