use mangalib::admission::{accepted_response, not_found_response, validate_job};
use mangalib::config::parse_u16;
use mangalib::Error;

// Scenario: a valid scrape request is acknowledged with 200 and a success
// body right away, before any background work has happened.
#[test]
fn valid_request_is_acknowledged_immediately() {
    let job = validate_job("abc".to_string(), "http://cb".to_string()).unwrap();
    assert_eq!(job.slug, "abc");
    assert_eq!(job.callback_url, "http://cb");
    let response = accepted_response();
    assert_eq!(response.status, 200);
    assert!(response.success);
    assert_eq!(response.message, "Manga was sent successfully");
}

#[test]
fn empty_slug_is_rejected() {
    let rejected = validate_job(String::new(), "http://cb".to_string());
    assert_eq!(rejected.unwrap_err(), Error::AdmissionRejected);
}

#[test]
fn empty_callback_url_is_rejected() {
    let rejected = validate_job("abc".to_string(), String::new());
    assert_eq!(rejected.unwrap_err(), Error::AdmissionRejected);
}

#[test]
fn unknown_route_gets_404() {
    let response = not_found_response();
    assert_eq!(response.status, 404);
    assert!(!response.success);
    assert_eq!(response.message, "Route not found");
}

#[test]
fn parses_decimal_arguments() {
    assert_eq!(parse_u16("0"), Ok(0));
    assert_eq!(parse_u16("8080"), Ok(8080));
    assert_eq!(parse_u16("5"), Ok(5));
    assert_eq!(parse_u16("65535"), Ok(65535));
}

#[test]
fn rejects_bad_arguments() {
    assert_eq!(parse_u16(""), Err(Error::BadArgument));
    assert_eq!(parse_u16("12a"), Err(Error::BadArgument));
    assert_eq!(parse_u16("-1"), Err(Error::BadArgument));
    assert_eq!(parse_u16(" 80"), Err(Error::BadArgument));
    assert_eq!(parse_u16("65536"), Err(Error::BadArgument));
    assert_eq!(parse_u16("999999"), Err(Error::BadArgument));
}

#[test]
fn error_messages_name_the_failed_phase() {
    assert_eq!(Error::AdmissionRejected.message(), "Malformed job description");
    assert_eq!(Error::BadArgument.message(), "Failed to parse argument");
    assert_eq!(Error::DiscoveryFailed.message(), "Failed to discover chapter list");
    assert_eq!(Error::ChapterFetchExhausted.message(), "Chapter fetch retries exhausted");
    assert_eq!(Error::DeliveryFailed.message(), "Failed to deliver to callback");
}
