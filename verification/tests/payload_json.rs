//! Serialization of event payloads: exact wire bytes, the omit-if-absent
//! rule, builder/direct equivalence, and the bare scalar forms.

use plausible_rs::{EventPayload, EventPayloadBuilder, PropValue, Props, PAGEVIEW_EVENT};

fn scalar_json(v: &PropValue) -> String {
    let mut out = String::new();
    plausible_rs::prop_value::push_prop_value(&mut out, v);
    out
}

#[test]
fn minimal_payload_has_exactly_the_three_required_keys() {
    let payload = EventPayload::new(
        String::from("example.com"),
        PAGEVIEW_EVENT.to_string(),
        String::from("https://example.com/test"),
        None,
        None,
        None,
    );
    assert_eq!(
        payload.to_json(),
        "{\"domain\":\"example.com\",\"name\":\"pageview\",\"url\":\"https://example.com/test\"}"
    );
}

#[test]
fn unset_optionals_do_not_appear_even_as_null() {
    let payload = EventPayload::new(
        String::from("d"),
        String::from("n"),
        String::from("u"),
        None,
        None,
        None,
    );
    let json = payload.to_json();
    assert!(!json.contains("referrer"));
    assert!(!json.contains("screen_width"));
    assert!(!json.contains("props"));
    assert!(!json.contains("null"));
}

#[test]
fn full_payload_serializes_all_fields_in_order() {
    let mut props = Props::new();
    props.insert(String::from("author"), PropValue::from(String::from("Ann")));
    props.insert(String::from("logged_in"), PropValue::from(true));
    let payload = EventPayload::new(
        String::from("example.com"),
        String::from("signup"),
        String::from("https://example.com/join"),
        Some(String::from("https://referrer.example/")),
        Some(2560),
        Some(props),
    );
    let expected = "{\"domain\":\"example.com\",\"name\":\"signup\",\"url\":\"https://example.com/join\",\"referrer\":\"https://referrer.example/\",\"screen_width\":2560,\"props\":{\"author\":\"Ann\",\"logged_in\":true}}";
    assert_eq!(payload.to_json(), expected);
}

#[test]
fn builder_and_direct_construction_serialize_identically() {
    let mut props = Props::new();
    props.insert(String::from("author"), PropValue::from(String::from("Ann")));

    let direct = EventPayload::new(
        String::from("example.com"),
        PAGEVIEW_EVENT.to_string(),
        String::from("https://example.com/test"),
        Some(String::from("https://referrer.example/")),
        Some(2560),
        Some(props.clone()),
    );
    let built = EventPayload::builder(
        String::from("example.com"),
        PAGEVIEW_EVENT.to_string(),
        String::from("https://example.com/test"),
    )
    .referrer(String::from("https://referrer.example/"))
    .screen_width(2560)
    .props(props)
    .build();
    assert_eq!(direct.to_json(), built.to_json());
}

#[test]
fn builder_setter_order_does_not_matter() {
    let a = EventPayload::builder(String::from("d"), String::from("n"), String::from("u"))
        .referrer(String::from("r"))
        .screen_width(800)
        .build();
    let b = EventPayload::builder(String::from("d"), String::from("n"), String::from("u"))
        .screen_width(800)
        .referrer(String::from("r"))
        .build();
    assert_eq!(a.to_json(), b.to_json());
}

#[test]
fn builder_subsets_match_direct_construction() {
    let only_width = EventPayloadBuilder::new(
        String::from("d"),
        String::from("n"),
        String::from("u"),
    )
    .screen_width(1024)
    .build();
    let direct = EventPayload::new(
        String::from("d"),
        String::from("n"),
        String::from("u"),
        None,
        Some(1024),
        None,
    );
    assert_eq!(only_width.to_json(), direct.to_json());
}

#[test]
fn build_is_idempotent() {
    let builder = EventPayload::builder(
        String::from("example.com"),
        PAGEVIEW_EVENT.to_string(),
        String::from("https://example.com/test"),
    )
    .referrer(String::from("https://referrer.example/"));
    let first = builder.build();
    let second = builder.build();
    assert_eq!(first.to_json(), second.to_json());
}

#[test]
fn scalar_conversions_serialize_bare() {
    assert_eq!(scalar_json(&PropValue::from(String::from("hi"))), "\"hi\"");
    assert_eq!(scalar_json(&PropValue::from(true)), "true");
    assert_eq!(scalar_json(&PropValue::from(false)), "false");
    assert_eq!(scalar_json(&PropValue::from(0u8)), "0");
    assert_eq!(scalar_json(&PropValue::from(65535u16)), "65535");
    assert_eq!(scalar_json(&PropValue::from(7u32)), "7");
    assert_eq!(scalar_json(&PropValue::from(42u64)), "42");
    assert_eq!(
        scalar_json(&PropValue::from(u128::MAX)),
        "340282366920938463463374607431768211455"
    );
    assert_eq!(scalar_json(&PropValue::from(10usize)), "10");
    assert_eq!(scalar_json(&PropValue::from(-5i8)), "-5");
    assert_eq!(scalar_json(&PropValue::from(-300i16)), "-300");
    assert_eq!(scalar_json(&PropValue::from(i32::MIN)), "-2147483648");
    assert_eq!(scalar_json(&PropValue::from(9i64)), "9");
    assert_eq!(
        scalar_json(&PropValue::from(i128::MIN)),
        "-170141183460469231731687303715884105728"
    );
    assert_eq!(scalar_json(&PropValue::from(-1isize)), "-1");
}

#[test]
fn strings_are_escaped_like_json_wants() {
    let payload = EventPayload::new(
        String::from("a\"b\\c\nd\te\ru{\u{1}}\u{1f}f"),
        String::from("n"),
        String::from("u"),
        None,
        None,
        None,
    );
    let json = payload.to_json();
    assert!(json.starts_with("{\"domain\":\"a\\\"b\\\\c\\nd\\te\\ru{\\u0001}\\u001ff\""));
}

#[test]
fn non_ascii_text_passes_through_unescaped() {
    let payload = EventPayload::new(
        String::from("café.example"),
        String::from("päge"),
        String::from("u"),
        None,
        None,
        None,
    );
    assert_eq!(
        payload.to_json(),
        "{\"domain\":\"café.example\",\"name\":\"päge\",\"url\":\"u\"}"
    );
}

#[test]
fn serialized_payload_is_valid_json_for_a_real_parser() {
    let mut props = Props::new();
    props.insert(String::from("count"), PropValue::from(3u8));
    props.insert(String::from("note"), PropValue::from(String::from("line\nbreak \"quoted\"")));
    let payload = EventPayload::new(
        String::from("ex\"ample\\.com"),
        String::from("signup"),
        String::from("https://example.com/a?b=c&d=é"),
        Some(String::from("ref\twith\ttabs")),
        Some(1280),
        Some(props),
    );
    let value: serde_json::Value = serde_json::from_str(&payload.to_json()).unwrap();
    assert_eq!(value["domain"].as_str().unwrap(), "ex\"ample\\.com");
    assert_eq!(value["name"].as_str().unwrap(), "signup");
    assert_eq!(value["url"].as_str().unwrap(), "https://example.com/a?b=c&d=é");
    assert_eq!(value["referrer"].as_str().unwrap(), "ref\twith\ttabs");
    assert_eq!(value["screen_width"].as_u64().unwrap(), 1280);
    assert_eq!(value["props"]["count"].as_u64().unwrap(), 3);
    assert_eq!(
        value["props"]["note"].as_str().unwrap(),
        "line\nbreak \"quoted\""
    );
    assert_eq!(value.as_object().unwrap().len(), 6);
}

#[test]
fn props_insert_replaces_an_existing_key_in_place() {
    let mut props = Props::new();
    props.insert(String::from("a"), PropValue::from(1u8));
    props.insert(String::from("b"), PropValue::from(2u8));
    props.insert(String::from("a"), PropValue::from(9u8));
    assert_eq!(props.len(), 2);
    let payload = EventPayload::new(
        String::from("d"),
        String::from("n"),
        String::from("u"),
        None,
        None,
        Some(props),
    );
    assert!(payload.to_json().ends_with("\"props\":{\"a\":9,\"b\":2}}"));
}

#[test]
fn empty_props_serialize_as_an_empty_object() {
    let payload = EventPayload::new(
        String::from("d"),
        String::from("n"),
        String::from("u"),
        None,
        None,
        Some(Props::new()),
    );
    assert_eq!(
        payload.to_json(),
        "{\"domain\":\"d\",\"name\":\"n\",\"url\":\"u\",\"props\":{}}"
    );
}
