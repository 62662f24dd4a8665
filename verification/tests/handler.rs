use oauth_loopback::handle_request;

fn response_and_code(request: &[u8]) -> (String, Option<String>) {
    let outcome = handle_request(request).expect("non-empty request must produce an outcome");
    let code = outcome.notification.map(|n| n.code);
    (outcome.response, code)
}

#[test]
fn success_code_scenario() {
    let (response, code) =
        response_and_code(b"GET /cb?code=ABC123 HTTP/1.1\r\nHost: localhost\r\n\r\n");
    assert!(response.starts_with("HTTP/1.1 200 OK\r\n"));
    assert_eq!(code.as_deref(), Some("ABC123"));
}

#[test]
fn state_only_scenario() {
    let (response, code) = response_and_code(b"GET /cb?state=xyz HTTP/1.1\r\n\r\n");
    assert!(response.starts_with("HTTP/1.1 400 Bad Request\r\n"));
    assert_eq!(code, None);
}

#[test]
fn empty_code_value_is_absent() {
    // An empty `code` value counts as absent: no notification, failure page.
    let (response, code) = response_and_code(b"GET /cb?code= HTTP/1.1\r\n\r\n");
    assert!(response.starts_with("HTTP/1.1 400 Bad Request\r\n"));
    assert_eq!(code, None);
}

#[test]
fn empty_read_produces_nothing() {
    assert!(handle_request(b"").is_none());
}

#[test]
fn percent_decoding_applies() {
    let (response, code) = response_and_code(b"GET /cb?code=A%20B%2Fc HTTP/1.1\r\n");
    assert!(response.starts_with("HTTP/1.1 200 OK\r\n"));
    assert_eq!(code.as_deref(), Some("A B/c"));
}

#[test]
fn plus_decodes_to_space() {
    let (_, code) = response_and_code(b"GET /cb?code=a+b HTTP/1.1\r\n");
    assert_eq!(code.as_deref(), Some("a b"));
}

#[test]
fn first_code_parameter_wins() {
    let (_, code) = response_and_code(b"GET /cb?code=first&code=second HTTP/1.1\r\n");
    assert_eq!(code.as_deref(), Some("first"));
}

#[test]
fn empty_first_code_still_decides() {
    // The first `code` occurrence decides even when a later one is non-empty.
    let (response, code) = response_and_code(b"GET /cb?code=&code=later HTTP/1.1\r\n");
    assert!(response.starts_with("HTTP/1.1 400 Bad Request\r\n"));
    assert_eq!(code, None);
}

#[test]
fn code_found_after_other_parameters() {
    let (_, code) = response_and_code(b"GET /cb?state=x&session=9&code=zz HTTP/1.1\r\n");
    assert_eq!(code.as_deref(), Some("zz"));
}

#[test]
fn code_in_fragment_does_not_count() {
    let (response, code) = response_and_code(b"GET /cb?state=1#code=y HTTP/1.1\r\n");
    assert!(response.starts_with("HTTP/1.1 400 Bad Request\r\n"));
    assert_eq!(code, None);
}

#[test]
fn request_line_without_target_fails() {
    let (response, code) = response_and_code(b"GET\r\n");
    assert!(response.starts_with("HTTP/1.1 400 Bad Request\r\n"));
    assert_eq!(code, None);
}

#[test]
fn garbage_bytes_fail_without_panic() {
    let (response, code) = response_and_code(&[0xFF, 0xFE, 0x00, 0x20, 0x41]);
    assert!(response.starts_with("HTTP/1.1 400 Bad Request\r\n"));
    assert_eq!(code, None);
}

#[test]
fn invalid_bytes_after_request_line_are_tolerated() {
    let mut request = b"GET /cb?code=ok HTTP/1.1\r\n".to_vec();
    request.extend_from_slice(&[0xFF, 0xFE, 0xFD]);
    let (response, code) = response_and_code(&request);
    assert!(response.starts_with("HTTP/1.1 200 OK\r\n"));
    assert_eq!(code.as_deref(), Some("ok"));
}

#[test]
fn bare_line_feed_terminates_request_line() {
    let (_, code) = response_and_code(b"GET /cb?code=lf HTTP/1.1\nHost: h\n");
    assert_eq!(code.as_deref(), Some("lf"));
}

#[test]
fn response_declares_connection_close() {
    let (response, _) = response_and_code(b"GET /cb?code=x HTTP/1.1\r\n");
    assert!(response.contains("\r\nConnection: close\r\n"));
    assert!(response.contains("\r\nContent-Type: text/html\r\n"));
}
