use thermostat_config::error_handler::error_body;

#[test]
fn plain_body_becomes_error_json() {
    assert_eq!(error_body(b"Not Found"), r#"{"error": "Not Found"}"#);
}

#[test]
fn empty_body_becomes_empty_error() {
    assert_eq!(error_body(b""), r#"{"error": ""}"#);
}

#[test]
fn quotes_and_newlines_are_escaped() {
    assert_eq!(
        error_body(b"say \"hi\"\n\\"),
        r#"{"error": "say \"hi\"\n\\"}"#
    );
}

#[test]
fn control_characters_are_escaped() {
    assert_eq!(error_body(&[0x01u8]), r#"{"error": "\u0001"}"#);
}

#[test]
fn invalid_utf8_is_replaced() {
    assert_eq!(
        error_body(&[b'a', 0xffu8, b'b']),
        "{\"error\": \"a\u{fffd}b\"}"
    );
}

#[test]
fn non_ascii_text_is_kept() {
    assert_eq!(error_body("température".as_bytes()), "{\"error\": \"température\"}");
}

#[test]
fn all_short_escapes() {
    assert_eq!(
        error_body(&[0x08u8, 0x0c, b'\r', b'\t', b'/', 0x1f, 0x7f]),
        "{\"error\": \"\\b\\f\\r\\t/\\u001f\u{7f}\"}"
    );
}

#[test]
fn quote_in_body_is_escaped() {
    assert_eq!(error_body(&[b'a', b'"', b'b']), r#"{"error": "a\"b"}"#);
}
