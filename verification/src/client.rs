//! The client: a reusable HTTP transport handle and the base URL of the
//! service. The client assembles each request and classifies each response
//! here; dispatching a request over the network is the transport's business
//! and stays outside this crate.

use vstd::prelude::*;

use crate::error::{is_success_status, Error};
use crate::event_headers::EventHeaders;
use crate::event_payload::{payload_json, EventPayload};
use vstd::string::StringExecFns;

verus! {

/// The production endpoint of the service.
pub const BASE_URL: &'static str = "https://plausible.io";

#[verifier::external_type_specification]
#[verifier::external_body]
pub struct ExClient(reqwest::Client);

/// Relies on reqwest::Client::new: builds a client with the default
/// configuration. Its one panic path is a TLS backend that fails to
/// initialize, and the feature set built here carries no TLS backend.
#[verifier::external_body]
fn new_http_client() -> reqwest::Client {
    reqwest::Client::new()
}

/// Relies on reqwest::Client::clone: a cloned handle shares the same
/// connection pool. Nothing is claimed of the clone here.
pub assume_specification[ <reqwest::Client as Clone>::clone ](client: &reqwest::Client) -> (r:
    reqwest::Client);

/// A client of the service: one reusable HTTP transport handle and one base
/// URL, both fixed at construction. Its model is the base URL's text.
#[derive(Debug)]
pub struct Plausible {
    client: reqwest::Client,
    base_url: String,
}

impl Clone for Plausible {
    /// The clone aims at the same base URL, through a clone of the same
    /// transport handle.
    fn clone(&self) -> (r: Self)
        ensures
            r@ == self@,
    {
        Plausible { client: self.client.clone(), base_url: self.base_url.clone() }
    }
}

impl View for Plausible {
    type V = Seq<char>;

    closed spec fn view(&self) -> Seq<char> {
        self.base_url@
    }
}

/// Everything the transport needs to dispatch one event-recording request:
/// the endpoint URL, the three headers, and the JSON body.
pub struct EventRequest {
    /// Where the request goes: the event endpoint under the base URL.
    pub url: String,
    /// Value of the Content-Type header.
    pub content_type: String,
    /// Value of the User-Agent header.
    pub user_agent: String,
    /// Value of the X-Forwarded-For header.
    pub x_forwarded_for: String,
    /// The JSON body.
    pub body: String,
}

impl Plausible {
    /// True when this client holds exactly the given transport.
    pub closed spec fn holds_transport(&self, client: reqwest::Client) -> bool {
        self.client == client
    }

    /// A client with a fresh transport, aimed at the production endpoint.
    pub fn new() -> (r: Self)
        ensures
            r@ == "https://plausible.io"@,
    {
        Plausible { client: new_http_client(), base_url: BASE_URL.to_owned() }
    }

    /// A client wrapping a transport the caller already configured, aimed at
    /// the production endpoint. The caller's transport is stored as given,
    /// with whatever TLS or proxy configuration it carries.
    pub fn new_with_client(client: reqwest::Client) -> (r: Self)
        ensures
            r@ == "https://plausible.io"@,
            r.holds_transport(client),
    {
        Plausible { client, base_url: BASE_URL.to_owned() }
    }

    /// The base URL this client aims at.
    pub fn base_url(&self) -> (r: &str)
        ensures
            r@ == self@,
    {
        self.base_url.as_str()
    }

    /// The transport handle this client dispatches through: the one it was
    /// constructed with.
    pub fn http_client(&self) -> (r: &reqwest::Client)
        ensures
            self.holds_transport(*r),
    {
        &self.client
    }

    /// Assembles the event-recording request: a POST to `/api/event` under
    /// the base URL, the JSON content type, the two side-channel headers
    /// copied from `headers`, and the payload's exact JSON body.
    pub fn event_request(&self, headers: &EventHeaders, payload: &EventPayload) -> (r:
        EventRequest)
        ensures
            r.url@ == self@ + "/api/event"@,
            r.content_type@ == "application/json"@,
            r.user_agent@ == headers.user_agent@,
            r.x_forwarded_for@ == headers.x_forwarded_for@,
            r.body@ == payload_json(payload@),
    {
        let mut url = self.base_url.clone();
        url.append("/api/event");
        EventRequest {
            url,
            content_type: "application/json".to_owned(),
            user_agent: headers.user_agent.clone(),
            x_forwarded_for: headers.x_forwarded_for.clone(),
            body: payload.to_json(),
        }
    }

    /// The URL of the health endpoint: `/api/health` under the base URL.
    pub fn health_request_url(&self) -> (r: String)
        ensures
            r@ == self@ + "/api/health"@,
    {
        let mut url = self.base_url.clone();
        url.append("/api/health");
        url
    }
}

impl Default for Plausible {
    /// The same as [`Plausible::new`].
    fn default() -> (r: Self)
        ensures
            r@ == "https://plausible.io"@,
    {
        Plausible::new()
    }
}

/// Classifies a response of the event endpoint: a success status returns the
/// body bytes verbatim, any other status fails with the status and those same
/// bytes. The body is never parsed on either path.
pub fn classify_event_response(status: u16, body: Vec<u8>) -> (r: Result<Vec<u8>, Error>)
    ensures
        is_success_status(status) ==> (r matches Ok(b) && b@ == body@),
        !is_success_status(status) ==> (r matches Err(
            Error::RequestFailed { status: st, body: b },
        ) && st == status && b@ == body@),
{
    if 200 <= status && status < 300 {
        Ok(body)
    } else {
        Err(Error::RequestFailed { status, body })
    }
}

} // verus!
