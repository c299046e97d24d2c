use zero2prod::domain::SubscriberEmail;
use zero2prod::email_client::{
    interpret_send_outcome, json_escape, json_string, DispatchError, EmailClient, SecretToken,
    SendOutcome, POSTMARK_HEADER,
};

fn client(base_url: &str) -> EmailClient {
    EmailClient::new(
        base_url.to_owned(),
        SubscriberEmail::parse("sender@example.com").unwrap(),
        SecretToken::new("SECRET-REDACTED".to_owned()),
        200,
    )
}

#[test]
fn a_2xx_status_is_the_only_success() {
    assert_eq!(interpret_send_outcome(SendOutcome::Status(200)), Ok(()));
    assert_eq!(interpret_send_outcome(SendOutcome::Status(299)), Ok(()));
    for status in [100u16, 301, 400, 404, 500, 503] {
        assert_eq!(
            interpret_send_outcome(SendOutcome::Status(status)),
            Err(DispatchError::ProviderRejected(status))
        );
    }
}

#[test]
fn a_server_error_maps_to_provider_rejected_with_the_status() {
    assert_eq!(
        interpret_send_outcome(SendOutcome::Status(500)),
        Err(DispatchError::ProviderRejected(500))
    );
}

#[test]
fn no_response_maps_to_a_transport_error() {
    assert_eq!(
        interpret_send_outcome(SendOutcome::TransportFailure),
        Err(DispatchError::Transport)
    );
}

#[test]
fn json_escape_leaves_plain_text_alone() {
    assert_eq!(json_escape("hello world"), "hello world");
}

#[test]
fn json_escape_handles_quotes_backslashes_and_controls() {
    assert_eq!(json_escape("a\"b"), "a\\\"b");
    assert_eq!(json_escape("a\\b"), "a\\\\b");
    assert_eq!(json_escape("a\nb\rc\td"), "a\\nb\\rc\\td");
    assert_eq!(json_escape("\u{1}\u{1f}"), "\\u0001\\u001f");
}

#[test]
fn json_string_wraps_in_quotes() {
    assert_eq!(json_string("hi"), "\"hi\"");
    assert_eq!(json_string(""), "\"\"");
}

#[test]
fn build_send_request_targets_the_email_endpoint() {
    let client = client("http://localhost:8000");
    let recipient = SubscriberEmail::parse("to@example.com").unwrap();
    let request = client.build_send_request(&recipient, "Hello", "<p>Hi</p>", "Hi");
    assert_eq!(request.url, "http://localhost:8000/email");
    assert_eq!(request.content_type, "application/json");
    assert_eq!(request.authorization_token.expose_secret(), "SECRET-REDACTED");
    assert_eq!(request.timeout_ms, 200);
}

#[test]
fn build_send_request_renders_the_provider_body() {
    let client = client("http://localhost:8000");
    let recipient = SubscriberEmail::parse("to@example.com").unwrap();
    let request = client.build_send_request(&recipient, "Welcome!", "<b>\"hi\"</b>", "line1\nline2");
    assert_eq!(
        request.body,
        "{\"From\":\"sender@example.com\",\"To\":\"to@example.com\",\"Subject\":\"Welcome!\",\"HtmlBody\":\"<b>\\\"hi\\\"</b>\",\"TextBody\":\"line1\\nline2\"}"
    );
}

#[test]
fn the_authorization_header_name_is_the_provider_contract() {
    assert_eq!(POSTMARK_HEADER, "X-Postmark-Server-Token");
}

#[test]
fn expose_secret_reveals_the_wrapped_token() {
    let token = SecretToken::new("SECRET-REDACTED".to_owned());
    assert_eq!(token.expose_secret(), "SECRET-REDACTED");
    assert_eq!(token.duplicate().expose_secret(), "SECRET-REDACTED");
}
