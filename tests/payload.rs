use huggingface_error::payload::{message_from_payload, message_of, HuggingfaceError};

#[test]
fn test_parse_error() {
    let resp = r#"
            {
                "error": "Invalid username or password."
            }
            "#;
    let decoded_response = HuggingfaceError::parse(resp.as_bytes()).expect("payload decodes");

    assert_eq!(decoded_response.error, "Invalid username or password.");
}

#[test]
fn parse_ignores_other_members() {
    let e = HuggingfaceError::parse(br#"{"code": 7, "error": "quota"}"#).unwrap();
    assert_eq!(e.error, "quota");
}

#[test]
fn parse_rejects_non_json() {
    assert!(HuggingfaceError::parse(b"oops").is_none());
}

#[test]
fn parse_rejects_empty_body() {
    assert!(HuggingfaceError::parse(b"").is_none());
}

#[test]
fn parse_rejects_missing_field() {
    assert!(HuggingfaceError::parse(br#"{"message": "x"}"#).is_none());
}

#[test]
fn parse_rejects_non_string_field() {
    assert!(HuggingfaceError::parse(br#"{"error": 404}"#).is_none());
}

#[test]
fn parse_rejects_non_object() {
    assert!(HuggingfaceError::parse(br#"["not found"]"#).is_none());
}

#[test]
fn message_quotes_payload_field() {
    assert_eq!(message_of(br#"{"error":"not found"}"#), "\"not found\"");
}

#[test]
fn message_escapes_newline_in_payload() {
    let m = message_of(br#"{"error":"line one\nline two"}"#);
    assert_eq!(m, "\"line one\\nline two\"");
    assert!(!m.contains('\n'));
}

#[test]
fn message_falls_back_to_body_text() {
    assert_eq!(message_of(b"oops"), "oops");
    assert_eq!(message_of(br#"{"message":"x"}"#), r#"{"message":"x"}"#);
}

#[test]
fn message_replaces_invalid_utf8() {
    assert_eq!(message_of(&[0xff, b'a']), "\u{FFFD}a");
}

#[test]
fn message_of_empty_body_is_empty() {
    assert_eq!(message_of(b""), "");
}

#[test]
fn message_from_given_payload() {
    let e = HuggingfaceError { error: "gone".to_string() };
    assert_eq!(message_from_payload(Some(e), b"ignored"), "\"gone\"");
    assert_eq!(message_from_payload(None, b"raw text"), "raw text");
}

#[test]
fn single_line_message_turns_newlines_to_spaces() {
    let e = HuggingfaceError { error: "a\nb\n\nc".to_string() };
    assert_eq!(e.single_line_message(), "a b  c");
}
