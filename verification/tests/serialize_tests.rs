use rocketchat_client_rs::RocketClient;

#[test]
fn minimal_body_holds_only_text_and_webhook() {
    let body = RocketClient::new("https://example.com").with_text("Hi world").json_body();
    assert_eq!(body, "{\"text\":\"Hi world\",\"webhook\":\"https://example.com\"}");
}

#[test]
fn full_body_holds_every_set_field_under_its_key() {
    let body = RocketClient::new("https://example.com")
        .with_text("Hi world")
        .with_channel("#test-logs")
        .with_hostname("my-machine")
        .with_botname(Some("some-bot".to_string()))
        .with_emoji(Some(":sos:".to_string()))
        .json_body();
    assert_eq!(
        body,
        "{\"text\":\"Hi world\",\"webhook\":\"https://example.com\",\"emoji\":\":sos:\",\"botname\":\"some-bot\",\"channel\":\"#test-logs\",\"hostname\":\"my-machine\"}"
    );

    let parsed: serde_json::Value = serde_json::from_str(&body).unwrap();
    assert_eq!(parsed["text"].as_str(), Some("Hi world"));
    assert_eq!(parsed["webhook"].as_str(), Some("https://example.com"));
    assert_eq!(parsed["emoji"].as_str(), Some(":sos:"));
    assert_eq!(parsed["botname"].as_str(), Some("some-bot"));
    assert_eq!(parsed["channel"].as_str(), Some("#test-logs"));
    assert_eq!(parsed["hostname"].as_str(), Some("my-machine"));
}

#[test]
fn unset_fields_are_absent_not_empty() {
    let body = RocketClient::new("https://example.com").with_text("Hi").json_body();
    let parsed: serde_json::Value = serde_json::from_str(&body).unwrap();
    let object = parsed.as_object().unwrap();
    assert_eq!(object.len(), 2);
    assert!(object.get("emoji").is_none());
    assert!(object.get("botname").is_none());
    assert!(object.get("channel").is_none());
    assert!(object.get("hostname").is_none());
}

#[test]
fn empty_string_field_is_kept_distinct_from_unset() {
    let unset = RocketClient::new("https://example.com").with_text("Hi").json_body();
    let empty = RocketClient::new("https://example.com")
        .with_text("Hi")
        .with_emoji(Some(String::new()))
        .json_body();
    assert_ne!(unset, empty);
    let parsed: serde_json::Value = serde_json::from_str(&empty).unwrap();
    assert_eq!(parsed["emoji"].as_str(), Some(""));
}

#[test]
fn quotes_and_backslashes_are_escaped() {
    let body = RocketClient::new("https://example.com")
        .with_text("say \"hi\" \\ bye")
        .json_body();
    assert_eq!(
        body,
        "{\"text\":\"say \\\"hi\\\" \\\\ bye\",\"webhook\":\"https://example.com\"}"
    );
    let parsed: serde_json::Value = serde_json::from_str(&body).unwrap();
    assert_eq!(parsed["text"].as_str(), Some("say \"hi\" \\ bye"));
}

#[test]
fn control_characters_are_escaped() {
    let body = RocketClient::new("https://example.com")
        .with_text("a\nb\tc\rd\u{8}e\u{c}f\u{1}g\u{1f}h")
        .json_body();
    assert_eq!(
        body,
        "{\"text\":\"a\\nb\\tc\\rd\\be\\ff\\u0001g\\u001fh\",\"webhook\":\"https://example.com\"}"
    );
    let parsed: serde_json::Value = serde_json::from_str(&body).unwrap();
    assert_eq!(parsed["text"].as_str(), Some("a\nb\tc\rd\u{8}e\u{c}f\u{1}g\u{1f}h"));
}

#[test]
fn non_ascii_text_round_trips_through_json() {
    let text = "héllo wörld ünïcode ✓";
    let body = RocketClient::new("https://example.com").with_text(text).json_body();
    let parsed: serde_json::Value = serde_json::from_str(&body).unwrap();
    assert_eq!(parsed["text"].as_str(), Some(text));
}
