use rocketchat_client_rs::RocketClient;
use rocketchat_client_rs::SendOutcome;
use rocketchat_client_rs::TransportError;
use rocketchat_client_rs::complete_send;

#[test]
fn transport_failure_is_always_an_error() {
    let result = complete_send(SendOutcome::TransportFailure("dns lookup failed".to_string()));
    match result {
        Err(TransportError::Request(cause)) => assert_eq!(cause, "dns lookup failed"),
        other => panic!("expected a request error, got {:?}", other),
    }
}

#[test]
fn json_response_body_is_a_success() {
    assert!(complete_send(SendOutcome::Response("{}".to_string())).is_ok());
    assert!(complete_send(SendOutcome::Response("{\"success\":true}".to_string())).is_ok());
    assert!(complete_send(SendOutcome::Response("null".to_string())).is_ok());
}

#[test]
fn unparseable_response_body_is_an_error() {
    let result = complete_send(SendOutcome::Response("<html>teapot</html>".to_string()));
    match result {
        Err(TransportError::ResponseParse(body)) => assert_eq!(body, "<html>teapot</html>"),
        other => panic!("expected a response parse error, got {:?}", other),
    }
    assert!(complete_send(SendOutcome::Response(String::new())).is_err());
}

#[test]
fn failed_send_of_a_configured_message_surfaces_the_error() {
    let client = RocketClient::new("https://example.com")
        .with_channel("#test-logs")
        .with_text("Hi world")
        .with_default_hostname();
    let body = client.json_body();
    assert!(!body.is_empty());
    let result = complete_send(SendOutcome::TransportFailure(
        "connection refused".to_string(),
    ));
    assert!(
        result.is_err(),
        "Should return error in case unable to send text to Rocketchat"
    );
}
