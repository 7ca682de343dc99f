use frame::headers::Headers;
use frame::ipc_req::{HeaderField, InboundRequest, SerdeRequest};
use frame::text::{all_text, to_header_text, to_lower_char, to_lower_text};

fn field(name: &str, value: &[u8]) -> HeaderField {
    HeaderField { name: name.to_string(), value: value.to_vec() }
}

fn request(headers: Vec<HeaderField>) -> InboundRequest<String> {
    InboundRequest {
        method: "POST".to_string(),
        uri: "/api/call".to_string(),
        version: "HTTP/1.1".to_string(),
        headers,
        body: "ping".to_string(),
    }
}

fn entries(headers: &Headers) -> Vec<(String, String)> {
    let mut out = Vec::new();
    let mut i = 0;
    while let Some((name, value)) = headers.entry(i) {
        out.push((name.clone(), value.clone()));
        i += 1;
    }
    assert_eq!(i, headers.len());
    out
}

fn pair(name: &str, value: &str) -> (String, String) {
    (name.to_string(), value.to_string())
}

#[test]
fn normalize_keeps_method_uri_version_and_body() {
    let normalized = SerdeRequest::from(request(vec![field("content-type", b"text/plain")]));
    assert_eq!(normalized.method, "POST");
    assert_eq!(normalized.uri, "/api/call");
    assert_eq!(normalized.version, "HTTP/1.1");
    assert_eq!(normalized.body, "ping");
    assert_eq!(entries(&normalized.headers), vec![pair("content-type", "text/plain")]);
}

#[test]
fn normalize_keeps_a_body_of_any_type() {
    let inbound = InboundRequest {
        method: "GET".to_string(),
        uri: "/".to_string(),
        version: "HTTP/2.0".to_string(),
        headers: Vec::new(),
        body: vec![1u8, 2, 3],
    };
    let normalized = SerdeRequest::from(inbound);
    assert_eq!(normalized.body, vec![1u8, 2, 3]);
    assert!(normalized.headers.is_empty());
    assert_eq!(normalized.headers.len(), 0);
}

#[test]
fn normalize_lower_cases_header_names() {
    let normalized = SerdeRequest::from(request(vec![
        field("Content-Type", b"text/plain"),
        field("X-REQUEST-ID", b"42"),
    ]));
    assert_eq!(
        entries(&normalized.headers),
        vec![pair("content-type", "text/plain"), pair("x-request-id", "42")]
    );
    assert_eq!(normalized.headers.get("content-type"), Some(&"text/plain".to_string()));
    assert_eq!(normalized.headers.get("Content-Type"), None);
}

#[test]
fn normalize_last_value_wins_on_duplicate_name() {
    let normalized = SerdeRequest::from(request(vec![
        field("accept", b"text/html"),
        field("host", b"example.com"),
        field("Accept", b"application/json"),
        field("ACCEPT", b"*/*"),
    ]));
    assert_eq!(normalized.headers.len(), 2);
    assert_eq!(normalized.headers.get("accept"), Some(&"*/*".to_string()));
    assert_eq!(normalized.headers.get("host"), Some(&"example.com".to_string()));
    assert_eq!(entries(&normalized.headers), vec![pair("accept", "*/*"), pair("host", "example.com")]);
}

#[test]
fn normalize_has_one_entry_per_distinct_name() {
    let raw = vec![
        field("a", b"1"),
        field("B", b"2"),
        field("A", b"3"),
        field("c", b"4"),
        field("b", b"5"),
        field("C", b"6"),
        field("a", b"7"),
    ];
    let normalized = SerdeRequest::from(request(raw));
    assert_eq!(normalized.headers.len(), 3);
    assert_eq!(entries(&normalized.headers), vec![pair("a", "7"), pair("b", "5"), pair("c", "6")]);
    assert!(normalized.headers.contains("a"));
    assert!(normalized.headers.contains("b"));
    assert!(normalized.headers.contains("c"));
    assert!(!normalized.headers.contains("d"));
}

#[test]
fn normalize_value_that_is_not_text_becomes_empty() {
    let normalized = SerdeRequest::from(request(vec![
        field("x-binary", &[0xff, 0xfe, 0x41]),
        field("x-text", b"ok"),
    ]));
    assert_eq!(normalized.headers.get("x-binary"), Some(&String::new()));
    assert_eq!(normalized.headers.get("x-text"), Some(&"ok".to_string()));
    assert_eq!(normalized.headers.len(), 2);
}

#[test]
fn normalize_later_value_that_is_not_text_still_replaces() {
    let normalized = SerdeRequest::from(request(vec![
        field("token", b"abc"),
        field("Token", &[0x80]),
    ]));
    assert_eq!(entries(&normalized.headers), vec![pair("token", "")]);
}

#[test]
fn normalize_without_headers_gives_empty_mapping() {
    let normalized = SerdeRequest::from(request(Vec::new()));
    assert!(normalized.headers.is_empty());
    assert_eq!(normalized.headers.get("content-type"), None);
}

#[test]
fn header_text_accepts_visible_ascii_space_and_tab() {
    assert_eq!(to_header_text(&b"a b\tc~!".to_vec()), "a b\tc~!");
    assert!(all_text(&b" \t~".to_vec()));
    assert!(all_text(&Vec::new()));
    assert_eq!(to_header_text(&Vec::new()), "");
}

#[test]
fn header_text_rejects_control_and_high_bytes() {
    assert!(!all_text(&vec![b'a', 0x7f]));
    assert!(!all_text(&vec![0x1f]));
    assert!(!all_text(&vec![b'\n']));
    assert!(!all_text(&vec![0x80]));
    assert!(!all_text(&"é".as_bytes().to_vec()));
    assert_eq!(to_header_text(&vec![b'a', 0x7f]), "");
    assert_eq!(to_header_text(&vec![b'o', b'k', 0x00]), "");
}

#[test]
fn lower_text_maps_ascii_letters_only() {
    assert_eq!(to_lower_text("Content-Type"), "content-type");
    assert_eq!(to_lower_text("AZaz09-_"), "azaz09-_");
    assert_eq!(to_lower_text("ÄÖ-Key"), "ÄÖ-key");
    assert_eq!(to_lower_text(""), "");
    assert_eq!(to_lower_char('A'), 'a');
    assert_eq!(to_lower_char('Z'), 'z');
    assert_eq!(to_lower_char('@'), '@');
    assert_eq!(to_lower_char('['), '[');
    assert_eq!(to_lower_char('q'), 'q');
}

#[test]
fn headers_insert_replaces_in_place_and_appends_new_names() {
    let mut headers = Headers::new();
    headers.insert("b".to_string(), "1".to_string());
    headers.insert("a".to_string(), "2".to_string());
    headers.insert("b".to_string(), "3".to_string());
    assert_eq!(entries(&headers), vec![pair("b", "3"), pair("a", "2")]);
    assert_eq!(headers.to_pairs(), vec![pair("b", "3"), pair("a", "2")]);
    assert_eq!(headers.get("a"), Some(&"2".to_string()));
    assert_eq!(headers.get("ab"), None);
    assert!(!headers.is_empty());
}
