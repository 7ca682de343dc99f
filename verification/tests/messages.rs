use frame::message::Message;

fn member<'a>(value: &'a serde_json::Value, name: &str) -> Option<&'a str> {
    value.get(name).and_then(|found| found.as_str())
}

#[test]
fn message_json_has_exact_text() {
    let plain = Message { message: "hi".to_string(), timestamp: None };
    assert_eq!(plain.to_json(), "{\n  \"message\": \"hi\"\n}");
    let stamped = Message { message: "hi".to_string(), timestamp: Some("t0".to_string()) };
    assert_eq!(stamped.to_json(), "{\n  \"message\": \"hi\",\n  \"timestamp\": \"t0\"\n}");
}

#[test]
fn message_json_escapes_its_text() {
    let message = Message { message: "a\n\"b\" \\ \t".to_string(), timestamp: None };
    assert_eq!(message.to_json(), "{\n  \"message\": \"a\\n\\\"b\\\" \\\\ \\t\"\n}");
}

#[test]
fn message_json_leaves_out_a_missing_timestamp() {
    let message = Message { message: "hello".to_string(), timestamp: None };
    let value: serde_json::Value = serde_json::from_str(&message.to_json()).unwrap();
    assert_eq!(value.as_object().unwrap().len(), 1);
    assert_eq!(member(&value, "message"), Some("hello"));
    assert!(value.get("timestamp").is_none());
}

#[test]
fn message_json_holds_the_documented_fields() {
    let messages = vec![
        Message { message: "hello".to_string(), timestamp: Some("2024-05-01".to_string()) },
        Message { message: String::new(), timestamp: Some(String::new()) },
        Message { message: "quote \" slash \\ tab \t ✓".to_string(), timestamp: Some("é".to_string()) },
    ];
    for message in messages {
        let value: serde_json::Value = serde_json::from_str(&message.to_json()).unwrap();
        assert_eq!(value.as_object().unwrap().len(), 2);
        assert_eq!(member(&value, "message"), Some(message.message.as_str()));
        assert_eq!(member(&value, "timestamp"), message.timestamp.as_deref());
    }
}

#[test]
fn messages_compare_by_their_fields() {
    let one = Message { message: "a".to_string(), timestamp: None };
    assert_eq!(one.clone(), one);
    assert_ne!(one, Message { message: "a".to_string(), timestamp: Some(String::new()) });
    assert_ne!(one, Message { message: "b".to_string(), timestamp: None });
}
