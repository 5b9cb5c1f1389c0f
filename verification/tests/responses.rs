use cognivox::limiter::RateLimiter;
use cognivox::response::{
    classify_connection_probe, classify_response, failure_code, response_is_rate_limited,
    AnalysisOutcome, ConnectionProbe,
};

#[test]
fn rate_limit_detection_by_status_and_markers() {
    assert!(response_is_rate_limited(429, "anything"));
    assert!(response_is_rate_limited(200, "error 429 somewhere"));
    assert!(response_is_rate_limited(200, "RESOURCE_EXHAUSTED"));
    assert!(response_is_rate_limited(200, "your rate is too high"));
    assert!(!response_is_rate_limited(200, "all good"));
    assert!(!response_is_rate_limited(500, ""));
    // Markers are case-sensitive, as in the marker set itself.
    assert!(!response_is_rate_limited(200, "RATE"));
}

#[test]
fn successful_body_yields_analysis_and_resets_backoff() {
    let mut l = RateLimiter::new(1000);
    l.record_rate_limited();
    assert_eq!(l.backoff_secs, 3);
    let body = "{\"candidates\":[{\"content\":{\"parts\":[{\"text\":\"extracted intelligence\"}]}}]}";
    match classify_response(200, body, &mut l) {
        AnalysisOutcome::Analysis { text } => assert_eq!(text, "extracted intelligence"),
        _ => panic!("a body with candidate text must classify as analysis"),
    }
    assert_eq!(l.backoff_secs, 0);
}

#[test]
fn error_payload_yields_api_error_and_resets_backoff() {
    let mut l = RateLimiter::new(1000);
    l.record_rate_limited();
    let body = "{\"error\":{\"message\":\"model not found\",\"code\":404}}";
    match classify_response(200, body, &mut l) {
        AnalysisOutcome::ApiError { message } => assert_eq!(message, "model not found"),
        _ => panic!("an error payload must classify as an API error"),
    }
    assert_eq!(l.backoff_secs, 0);
}

#[test]
fn parsed_body_without_text_yields_stand_in_analysis() {
    let mut l = RateLimiter::new(1000);
    let body = "{\"candidates\":[]}";
    match classify_response(200, body, &mut l) {
        AnalysisOutcome::Analysis { text } => assert_eq!(
            text,
            "{\"transcript\":\"\",\"tone\":\"NEUTRAL\",\"category\":[\"INFO\"],\"confidence\":0.3}"
        ),
        _ => panic!("a parsed body without text must still yield an analysis"),
    }
    assert_eq!(l.backoff_secs, 0);
}

#[test]
fn unreadable_body_yields_parse_error_and_keeps_backoff() {
    let mut l = RateLimiter::new(1000);
    l.record_rate_limited();
    match classify_response(200, "<html>oops</html>", &mut l) {
        AnalysisOutcome::ParseError { body_prefix } => {
            assert_eq!(body_prefix, "<html>oops</html>")
        }
        _ => panic!("an unreadable body must classify as a parse error"),
    }
    assert_eq!(l.backoff_secs, 3);
}

#[test]
fn long_unreadable_body_is_clipped() {
    let mut l = RateLimiter::new(1000);
    let body: String = std::iter::repeat('x').take(450).collect();
    match classify_response(200, body.as_str(), &mut l) {
        AnalysisOutcome::ParseError { body_prefix } => assert_eq!(body_prefix.len(), 200),
        _ => panic!("an unreadable body must classify as a parse error"),
    }
}

#[test]
fn rate_limited_response_escalates_backoff() {
    let mut l = RateLimiter::new(1000);
    match classify_response(429, "slow down", &mut l) {
        AnalysisOutcome::RateLimited { backoff_secs } => assert_eq!(backoff_secs, 3),
        _ => panic!("status 429 must classify as rate limited"),
    }
    match classify_response(200, "RESOURCE_EXHAUSTED", &mut l) {
        AnalysisOutcome::RateLimited { backoff_secs } => assert_eq!(backoff_secs, 6),
        _ => panic!("a marker in the body must classify as rate limited"),
    }
    assert_eq!(l.backoff_secs, 6);
}

#[test]
fn failure_codes_follow_the_outcome() {
    assert_eq!(failure_code(&AnalysisOutcome::RateLimited { backoff_secs: 3 }), 429);
    assert_eq!(
        failure_code(&AnalysisOutcome::ApiError { message: String::from("x") }),
        500
    );
    assert_eq!(
        failure_code(&AnalysisOutcome::ParseError { body_prefix: String::new() }),
        500
    );
}

#[test]
fn connection_probe_classification() {
    assert!(matches!(classify_connection_probe(429), ConnectionProbe::RateLimited));
    assert!(matches!(classify_connection_probe(403), ConnectionProbe::QuotaExhausted));
    assert!(matches!(
        classify_connection_probe(500),
        ConnectionProbe::HttpError { status: 500 }
    ));
    assert!(matches!(
        classify_connection_probe(404),
        ConnectionProbe::HttpError { status: 404 }
    ));
    assert!(matches!(classify_connection_probe(200), ConnectionProbe::Connected));
    assert!(matches!(classify_connection_probe(204), ConnectionProbe::Connected));
}
