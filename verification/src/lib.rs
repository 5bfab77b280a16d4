//! A client library for the Plausible Analytics HTTP API: typed event and
//! health-check payloads, their exact JSON wire form, and the mapping from
//! HTTP responses to typed results or errors.

pub mod client;
pub mod error;
pub mod event_headers;
pub mod event_payload;
pub mod event_payload_builder;
pub mod health;
pub mod json;
pub mod prop_value;
pub mod props;

pub use client::{classify_event_response, EventRequest, Plausible, BASE_URL};
pub use error::Error;
pub use event_headers::EventHeaders;
pub use event_payload::{EventPayload, PAGEVIEW_EVENT};
pub use event_payload_builder::EventPayloadBuilder;
pub use health::{interpret_health_response, parse_health_body, HealthResponse};
pub use prop_value::PropValue;
pub use props::Props;
