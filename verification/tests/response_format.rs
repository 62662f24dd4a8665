use oauth_loopback::handle_request;
use oauth_loopback::notification_for;
use oauth_loopback::parse_callback_request;
use oauth_loopback::response::decimal_digits;
use oauth_loopback::response::render_response;

fn content_length_matches_body(response: &str) {
    let (head, body) = response
        .split_once("\r\n\r\n")
        .expect("response must contain a blank line");
    let field = head
        .lines()
        .find_map(|l| l.strip_prefix("Content-Length: "))
        .expect("response must declare Content-Length");
    let declared: usize = field.parse().expect("Content-Length must be a number");
    assert_eq!(declared, body.as_bytes().len());
}

#[test]
fn content_length_is_exact_for_success() {
    content_length_matches_body(&render_response(true));
}

#[test]
fn content_length_is_exact_for_failure() {
    content_length_matches_body(&render_response(false));
}

#[test]
fn content_length_is_exact_in_handled_responses() {
    for request in [
        &b"GET /cb?code=ABC123 HTTP/1.1\r\n\r\n"[..],
        &b"GET /cb?state=xyz HTTP/1.1\r\n\r\n"[..],
    ] {
        let outcome = handle_request(request).unwrap();
        content_length_matches_body(&outcome.response);
    }
}

#[test]
fn success_page_mentions_success() {
    let response = render_response(true);
    assert!(response.contains("Sign-in successful!"));
    assert!(response.ends_with("</body></html>"));
}

#[test]
fn failure_page_invites_retry() {
    let response = render_response(false);
    assert!(response.contains("No authorization code received. Please try again."));
}

#[test]
fn decimal_digits_renders_exactly() {
    assert_eq!(decimal_digits(0), "0");
    assert_eq!(decimal_digits(7), "7");
    assert_eq!(decimal_digits(10), "10");
    assert_eq!(decimal_digits(65535), "65535");
    assert_eq!(decimal_digits(1234567890), "1234567890");
}

#[test]
fn parse_and_notify_agree() {
    let found = parse_callback_request(b"GET /cb?code=zz HTTP/1.1\r\n");
    assert!(found.is_code());
    let n = notification_for(&found).expect("a captured code must notify");
    assert_eq!(n.code, "zz");

    let absent = parse_callback_request(b"GET /cb HTTP/1.1\r\n");
    assert!(!absent.is_code());
    assert!(notification_for(&absent).is_none());
}
