use pling::matrix::payload_to_json as matrix_payload;
use pling::slack::payload_to_json as slack_payload;
use pling::{escape_quotes, generate_url, Matrix, WebUrl};

#[test]
fn matrix_generating_payload_works() {
    let result = matrix_payload("hello world");
    assert_eq!(result, r#"{"msgtype":"m.text","body":"hello world"}"#);
}

#[test]
fn matrix_generating_payload_with_quotes_works() {
    let result = matrix_payload(r#"hello "world""#);
    assert_eq!(result, r#"{"msgtype":"m.text","body":"hello \"world\""}"#);
}

#[test]
fn slack_generating_payload_works() {
    let result = slack_payload("hello world");
    assert_eq!(result, r#"{"text":"hello world"}"#);
}

#[test]
fn slack_generating_payload_with_quotes_works() {
    let result = slack_payload(r#"hello "world""#);
    assert_eq!(result, r#"{"text":"hello \"world\""}"#);
}

#[test]
fn url_correct() {
    let url = generate_url("123:ABC");
    assert_eq!(url, "https://api.telegram.org/bot123:ABC/sendMessage");
}

#[test]
fn escaping_leaves_backslashes_and_control_characters() {
    assert_eq!(escape_quotes("a\\b\n\"c\""), "a\\b\n\\\"c\\\"");
    assert_eq!(escape_quotes(""), "");
    assert_eq!(escape_quotes("\"\""), "\\\"\\\"");
}

#[test]
fn slack_payload_quotes_at_each_position() {
    let text = "\"start, middle \" and end\"";
    let body = slack_payload(text);
    assert_eq!(body, "{\"text\":\"\\\"start, middle \\\" and end\\\"\"}");
    let inner = &body["{\"text\":\"".len()..body.len() - 2];
    assert_eq!(inner.replace("\\\"", "\""), text);
}

#[test]
fn matrix_payload_keeps_unicode() {
    assert_eq!(
        matrix_payload("grüße \"✓\""),
        "{\"msgtype\":\"m.text\",\"body\":\"grüße \\\"✓\\\"\"}"
    );
}

#[test]
fn web_url_parses_and_rejects() {
    let url = WebUrl::parse("https://example.com").unwrap();
    assert_eq!(url.as_str(), "https://example.com/");
    assert!(WebUrl::parse("not a url").is_none());
    assert!(WebUrl::parse("").is_none());
}

#[test]
fn matrix_url_joins_the_message_path() {
    let matrix = Matrix {
        homeserver: WebUrl::parse("https://matrix.example.org").unwrap(),
        room_id: "!room:example.org".to_owned(),
        access_token: "SECRET-REDACTED".to_owned(),
    };
    assert_eq!(
        pling::matrix::message_path("!room:example.org", "tok"),
        "/_matrix/client/r0/rooms/!room:example.org/send/m.room.message?access_token=tok"
    );
    let url = matrix.generate_url().unwrap();
    assert_eq!(
        url.as_str(),
        "https://matrix.example.org/_matrix/client/r0/rooms/!room:example.org/send/m.room.message?access_token=SECRET-REDACTED"
    );
}
