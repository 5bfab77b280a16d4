//! The client's request assembly and response classification, exercised with
//! the transport mocked out: statuses and bodies are fed in directly.

use plausible_rs::{
    classify_event_response, Error, EventHeaders, EventPayload, Plausible, BASE_URL, PAGEVIEW_EVENT,
};

#[test]
fn event_request_carries_headers_url_and_minimal_body() {
    let client = Plausible::new();
    let headers = EventHeaders::new(String::from("UA/1.0"), String::from("10.0.0.1"));
    let payload = EventPayload::new(
        String::from("example.com"),
        PAGEVIEW_EVENT.to_string(),
        String::from("https://example.com/test"),
        None,
        None,
        None,
    );
    let request = client.event_request(&headers, &payload);
    assert_eq!(request.url, "https://plausible.io/api/event");
    assert_eq!(request.content_type, "application/json");
    assert_eq!(request.user_agent, "UA/1.0");
    assert_eq!(request.x_forwarded_for, "10.0.0.1");
    assert_eq!(
        request.body,
        "{\"domain\":\"example.com\",\"name\":\"pageview\",\"url\":\"https://example.com/test\"}"
    );
}

#[test]
fn event_500_response_fails_with_status_and_body() {
    match classify_event_response(500, b"server error".to_vec()) {
        Err(Error::RequestFailed { status, body }) => {
            assert_eq!(status, 500);
            assert_eq!(body, b"server error".to_vec());
        },
        other => panic!("expected a failed request, got {:?}", other),
    }
}

#[test]
fn event_success_response_returns_the_body_verbatim() {
    assert_eq!(
        classify_event_response(200, b"accepted".to_vec()).unwrap(),
        b"accepted".to_vec()
    );
    assert_eq!(classify_event_response(202, Vec::new()).unwrap(), Vec::<u8>::new());
    assert!(classify_event_response(299, b"x".to_vec()).is_ok());
}

#[test]
fn statuses_outside_the_success_range_fail() {
    assert!(matches!(
        classify_event_response(199, Vec::new()),
        Err(Error::RequestFailed { status: 199, .. })
    ));
    assert!(matches!(
        classify_event_response(300, Vec::new()),
        Err(Error::RequestFailed { status: 300, .. })
    ));
    assert!(matches!(
        classify_event_response(404, Vec::new()),
        Err(Error::RequestFailed { status: 404, .. })
    ));
}

#[test]
fn clients_aim_at_the_production_endpoint() {
    assert_eq!(BASE_URL, "https://plausible.io");
    assert_eq!(Plausible::new().base_url(), "https://plausible.io");
    assert_eq!(Plausible::default().base_url(), "https://plausible.io");
    let supplied = reqwest::Client::new();
    assert_eq!(Plausible::new_with_client(supplied).base_url(), "https://plausible.io");
}

#[test]
fn health_request_url_points_at_the_health_endpoint() {
    assert_eq!(Plausible::new().health_request_url(), "https://plausible.io/api/health");
}

#[test]
fn errors_describe_themselves() {
    assert_eq!(
        Error::Transport(String::from("connection refused")).describe(),
        "transport error: connection refused"
    );
    assert_eq!(
        Error::RequestFailed { status: 500, body: b"server error".to_vec() }.describe(),
        "request failed with status 500"
    );
    assert_eq!(
        Error::Decode { body: b"oops".to_vec() }.describe(),
        "failed to decode response body"
    );
}

#[test]
fn event_headers_keep_their_fields() {
    let headers = EventHeaders::new(String::from("UA/2.0"), String::from("127.0.0.1, 10.0.0.1"));
    assert_eq!(headers.user_agent, "UA/2.0");
    assert_eq!(headers.x_forwarded_for, "127.0.0.1, 10.0.0.1");
}
