//! Decoding of health-endpoint responses: the accepted grammar, the decode
//! error on anything else, and the status classification.

use plausible_rs::{interpret_health_response, parse_health_body, Error};

#[test]
fn health_ok_body_decodes_both_fields() {
    let body = b"{\"clickhouse\":\"ok\",\"postgres\":\"ok\"}".to_vec();
    let health = interpret_health_response(200, body).unwrap();
    assert_eq!(health.clickhouse, "ok");
    assert_eq!(health.postgres, "ok");
}

#[test]
fn health_accepts_whitespace_and_either_key_order() {
    let body = b" \t\r\n{ \"postgres\" : \"degraded\" ,\n \"clickhouse\" : \"ok\" } ".to_vec();
    let health = parse_health_body(&body).unwrap();
    assert_eq!(health.clickhouse, "ok");
    assert_eq!(health.postgres, "degraded");
}

#[test]
fn health_values_may_hold_escapes() {
    let body = b"{\"clickhouse\":\"o\\nk \\\"x\\\" \\\\ \\/ \\b\\f\\r\\t\",\"postgres\":\"ok\"}"
        .to_vec();
    let health = parse_health_body(&body).unwrap();
    assert_eq!(health.clickhouse, "o\nk \"x\" \\ / \u{8}\u{c}\r\t");
}

#[test]
fn health_non_json_body_is_a_decode_error_not_a_failed_request() {
    let result = interpret_health_response(200, b"not json at all".to_vec());
    assert!(matches!(result, Err(Error::Decode { .. })));
    assert!(!matches!(result, Err(Error::RequestFailed { .. })));
}

#[test]
fn health_decode_error_carries_the_body() {
    match interpret_health_response(200, b"oops".to_vec()) {
        Err(Error::Decode { body }) => assert_eq!(body, b"oops".to_vec()),
        other => panic!("expected a decode error, got {:?}", other),
    }
}

#[test]
fn health_non_success_status_is_a_failed_request() {
    match interpret_health_response(503, b"unavailable".to_vec()) {
        Err(Error::RequestFailed { status, body }) => {
            assert_eq!(status, 503);
            assert_eq!(body, b"unavailable".to_vec());
        },
        other => panic!("expected a failed request, got {:?}", other),
    }
}

#[test]
fn health_failed_request_wins_over_an_undecodable_body() {
    assert!(matches!(
        interpret_health_response(500, b"not json".to_vec()),
        Err(Error::RequestFailed { status: 500, .. })
    ));
}

#[test]
fn health_values_may_hold_unicode_escapes() {
    let body = b"{\"clickhouse\":\"\\u0041\\u00e9\\u260E ok\",\"postgres\":\"ok\"}".to_vec();
    let health = parse_health_body(&body).unwrap();
    assert_eq!(health.clickhouse, "A\u{e9}\u{260e} ok");
}

#[test]
fn health_values_may_hold_surrogate_pair_escapes() {
    let body = b"{\"clickhouse\":\"\\uD83D\\uDE00\",\"postgres\":\"ok\"}".to_vec();
    let health = parse_health_body(&body).unwrap();
    assert_eq!(health.clickhouse, "\u{1f600}");
}

#[test]
fn health_rejects_broken_unicode_escapes() {
    // A lone high surrogate, a lone low surrogate, a high surrogate followed
    // by no low one, and too few hex digits.
    assert!(parse_health_body(&b"{\"clickhouse\":\"\\uD83D\",\"postgres\":\"ok\"}".to_vec())
        .is_none());
    assert!(parse_health_body(&b"{\"clickhouse\":\"\\uDE00\",\"postgres\":\"ok\"}".to_vec())
        .is_none());
    assert!(parse_health_body(
        &b"{\"clickhouse\":\"\\uD83D\\u0041\",\"postgres\":\"ok\"}".to_vec()
    )
    .is_none());
    assert!(parse_health_body(&b"{\"clickhouse\":\"\\u00\",\"postgres\":\"ok\"}".to_vec())
        .is_none());
    assert!(parse_health_body(&b"{\"clickhouse\":\"\\u00gh\",\"postgres\":\"ok\"}".to_vec())
        .is_none());
}

#[test]
fn health_skips_unknown_members() {
    let body = b"{\"redis\":\"ok\",\"clickhouse\":\"ok\",\"queue\":17,\"postgres\":\"ok\"}"
        .to_vec();
    let health = parse_health_body(&body).unwrap();
    assert_eq!(health.clickhouse, "ok");
    assert_eq!(health.postgres, "ok");
}

#[test]
fn health_skips_unknown_members_with_nested_values() {
    let body = nested_unknown_members_body();
    let health = parse_health_body(&body).unwrap();
    assert_eq!(health.clickhouse, "ok");
    assert_eq!(health.postgres, "ok");
}

fn nested_unknown_members_body() -> Vec<u8> {
    let text = "{\"extra\":{\"a\":[1,-2.5e+3,{\"b\":null},true,false,\"s\"],\"z\":0.25E-2}, \
                \"clickhouse\":\"ok\",\"flags\":[[],{}],\"postgres\":\"ok\"}";
    text.as_bytes().to_vec()
}

#[test]
fn health_unicode_escape_body_is_ok_on_success_status() {
    let body = b"{\"clickhouse\":\"\\u0041\",\"postgres\":\"ok\"}".to_vec();
    let health = interpret_health_response(200, body).unwrap();
    assert_eq!(health.clickhouse, "A");
    assert_eq!(health.postgres, "ok");
}

#[test]
fn health_accepted_bodies_are_valid_json_for_a_real_parser() {
    let body = nested_unknown_members_body();
    let value: serde_json::Value = serde_json::from_slice(&body).unwrap();
    assert_eq!(value["clickhouse"].as_str().unwrap(), "ok");
    assert_eq!(value["postgres"].as_str().unwrap(), "ok");
    assert!(parse_health_body(&body).is_some());
}

#[test]
fn health_rejects_missing_or_duplicate_required_members() {
    assert!(parse_health_body(&b"{\"clickhouse\":\"ok\"}".to_vec()).is_none());
    assert!(parse_health_body(&b"{\"clickhouse\":\"ok\",\"clickhouse\":\"ok\"}".to_vec())
        .is_none());
    assert!(parse_health_body(
        &b"{\"clickhouse\":\"ok\",\"postgres\":\"ok\",\"postgres\":\"ok\"}".to_vec()
    )
    .is_none());
    assert!(parse_health_body(&b"{\"postgres\":\"ok\",\"other\":\"ok\"}".to_vec()).is_none());
}

#[test]
fn health_rejects_malformed_bodies() {
    assert!(parse_health_body(&b"".to_vec()).is_none());
    assert!(parse_health_body(&b"{}".to_vec()).is_none());
    assert!(parse_health_body(&b"[]".to_vec()).is_none());
    assert!(parse_health_body(&b"{\"clickhouse\":1,\"postgres\":\"ok\"}".to_vec()).is_none());
    assert!(parse_health_body(&b"{\"clickhouse\":\"ok\",\"postgres\":\"ok\"".to_vec()).is_none());
    assert!(parse_health_body(&b"{\"clickhouse\":\"ok\",\"postgres\":\"ok\"} x".to_vec())
        .is_none());
    assert!(parse_health_body(&b"{\"clickhouse\":\"ok\" \"postgres\":\"ok\"}".to_vec()).is_none());
    assert!(parse_health_body(&b"{\"clickhouse\":\"ok\",\"postgres\":\"ok\",}".to_vec())
        .is_none());
    assert!(parse_health_body(&b"{\"extra\":01,\"clickhouse\":\"ok\",\"postgres\":\"ok\"}"
        .to_vec())
    .is_none());
    // An unescaped control character may not stand inside a string.
    assert!(parse_health_body(&b"{\"clickhouse\":\"o\x01k\",\"postgres\":\"ok\"}".to_vec())
        .is_none());
}

#[test]
fn health_rejects_bodies_that_are_not_utf8() {
    assert!(parse_health_body(&vec![0xff, 0xfe, 0x7b]).is_none());
    assert!(matches!(
        interpret_health_response(200, vec![0xff]),
        Err(Error::Decode { .. })
    ));
}

#[test]
fn health_values_may_hold_non_ascii_text() {
    let body = "{\"clickhouse\":\"très ok\",\"postgres\":\"ok\"}".as_bytes().to_vec();
    let health = parse_health_body(&body).unwrap();
    assert_eq!(health.clickhouse, "très ok");
}
