use buckshot::attempt::outcome_from_response;
use buckshot::protocol::{
    calibration_name_change_prefix, calibration_profile_create_prefix, name_change_prefix,
    parse_status_prefix, profile_create_body, profile_create_prefix, security_answers_body,
    u8_to_decimal, PartialRequest, RESPONSE_PREFIX_LEN,
};

#[test]
fn status_parse_accepts_and_rejects() {
    assert_eq!(parse_status_prefix(b"HTTP/1.1 200"), Some(200));
    assert_eq!(parse_status_prefix(b"HTTP/1.1 429"), Some(429));
    assert_eq!(parse_status_prefix(b"HTTP/1.1 2X0"), None);
    assert_eq!(parse_status_prefix(b"HTTP/1.1"), None);
    assert_eq!(parse_status_prefix(b""), None);
}

#[test]
fn accepted_status_means_success() {
    let ok = outcome_from_response(b"HTTP/1.1 200", 42);
    assert!(ok.success);
    assert_eq!(ok.observed_status, 200);
    assert_eq!(ok.completed_at_ms, 42);
    let throttled = outcome_from_response(b"HTTP/1.1 429", 43);
    assert!(!throttled.success);
    assert_eq!(throttled.observed_status, 429);
}

#[test]
fn malformed_prefix_records_no_status() {
    let bad = outcome_from_response(b"garbage laye", 44);
    assert!(!bad.success);
    assert_eq!(bad.observed_status, 0);
    assert_eq!(bad.completed_at_ms, 44);
}

#[test]
fn response_prefix_len_covers_the_status_line() {
    assert_eq!(RESPONSE_PREFIX_LEN, b"HTTP/1.1 200".len());
}

#[test]
fn name_change_prefix_is_exact() {
    let p = name_change_prefix("Marc", "tok123");
    assert_eq!(
        p,
        "PUT /minecraft/profile/name/Marc HTTP/1.1\r\nHost: api.minecraftservices.com\r\nAuthorization: Bearer tok123\r\n"
    );
    assert!(!p.ends_with("\r\n\r\n"));
}

#[test]
fn profile_create_body_quotes_the_name() {
    assert_eq!(profile_create_body("Dream"), "{\"profileName\":\"Dream\"}");
}

#[test]
fn profile_create_body_escapes_the_name() {
    assert_eq!(
        profile_create_body("a\"b\\c"),
        "{\"profileName\":\"a\\\"b\\\\c\"}"
    );
}

#[test]
fn profile_create_prefix_is_exact() {
    let p = profile_create_prefix("Dream", "tok123");
    assert_eq!(
        p,
        "POST /minecraft/profile HTTP/1.1\r\nHost: api.minecraftservices.com\r\nAccept: application/json\r\nAuthorization: Bearer tok123\r\n\r\n{\"profileName\":\"Dream\"}"
    );
}

#[test]
fn calibration_prefixes_use_the_placeholder() {
    assert_eq!(
        calibration_name_change_prefix("Marc"),
        "PUT /minecraft/profile/name/Marc HTTP/1.1\r\nHost: api.minecraftservices.com\r\nAuthorization: Bearer token\r\n"
    );
    assert_eq!(
        calibration_profile_create_prefix("Marc"),
        "POST /minecraft/profile HTTP/1.1\r\nHost: api.minecraftservices.com\r\nAuthorization: Bearer token\r\n\r\n{\"profileName\":\"Marc\"}"
    );
}

#[test]
fn decimal_rendering_is_minimal() {
    assert_eq!(u8_to_decimal(0), "0");
    assert_eq!(u8_to_decimal(7), "7");
    assert_eq!(u8_to_decimal(42), "42");
    assert_eq!(u8_to_decimal(100), "100");
    assert_eq!(u8_to_decimal(255), "255");
}

#[test]
fn security_answers_body_is_exact() {
    let body = security_answers_body([1, 2, 3], ["Foo", "Bar", "Baz"]);
    assert_eq!(
        body,
        "[{\"id\":1,\"answer\":\"Foo\"},{\"id\":2,\"answer\":\"Bar\"},{\"id\":3,\"answer\":\"Baz\"}]"
    );
}

#[test]
fn partial_request_withholds_the_terminator() {
    let prefix = name_change_prefix("Marc", "tok123");
    let mut req = PartialRequest::stage(prefix.clone());
    assert_eq!(*req.staged(), prefix);
    assert!(!req.terminator_sent);
    let t = req.complete();
    assert_eq!(t, "\r\n");
    assert!(req.terminator_sent);
    let mut full = prefix;
    full.push_str(t);
    assert!(full.ends_with("\r\n\r\n"));
}
