//! The body of the event-recording request: three required fields and three
//! optional ones, serialized as a JSON object in which an unset optional
//! field does not appear at all (not even as null).

use vstd::prelude::*;

use crate::json::{dec_digits, json_string, push_dec_u128, push_json_string};
use crate::prop_value::JsonScalar;
use crate::props::{props_json, Props};
use vstd::string::StringExecFns;

verus! {

/// The name of the built-in pageview event; every other name is treated by
/// the service as a custom event.
pub const PAGEVIEW_EVENT: &'static str = "pageview";

/// The mathematical model of an event payload (and of its builder, which
/// carries the same fields).
pub struct EventPayloadView {
    pub domain: Seq<char>,
    pub name: Seq<char>,
    pub url: Seq<char>,
    pub referrer: Option<Seq<char>>,
    pub screen_width: Option<nat>,
    pub props: Option<Seq<(Seq<char>, JsonScalar)>>,
}

/// Body parameters of the event-recording endpoint.
#[derive(Debug, Clone)]
pub struct EventPayload {
    /// Domain of the site as registered with the service.
    pub domain: String,
    /// Name of the event: [`PAGEVIEW_EVENT`] or a custom event name.
    pub name: String,
    /// URL of the page where the event was triggered.
    pub url: String,
    /// Referrer for this event, if any.
    pub referrer: Option<String>,
    /// Width of the screen in pixels, if known.
    pub screen_width: Option<usize>,
    /// Custom properties for the event, if any.
    pub props: Option<Props>,
}

impl View for EventPayload {
    type V = EventPayloadView;

    open spec fn view(&self) -> EventPayloadView {
        EventPayloadView {
            domain: self.domain@,
            name: self.name@,
            url: self.url@,
            referrer: match self.referrer {
                Some(r) => Some(r@),
                None => None,
            },
            screen_width: match self.screen_width {
                Some(w) => Some(w as nat),
                None => None,
            },
            props: match self.props {
                Some(p) => Some(p@),
                None => None,
            },
        }
    }
}

/// The payload model assembled from its six fields.
pub open spec fn payload_view(
    domain: Seq<char>,
    name: Seq<char>,
    url: Seq<char>,
    referrer: Option<Seq<char>>,
    screen_width: Option<nat>,
    props: Option<Seq<(Seq<char>, JsonScalar)>>,
) -> EventPayloadView {
    EventPayloadView { domain, name, url, referrer, screen_width, props }
}

/// The exact JSON body of an event payload: the three required keys in fixed
/// order, then each optional key only if its field is set, in fixed order.
pub open spec fn payload_json(p: EventPayloadView) -> Seq<char> {
    "{\"domain\":"@ + json_string(p.domain) + ",\"name\":"@ + json_string(p.name) + ",\"url\":"@
        + json_string(p.url) + (match p.referrer {
        Some(r) => ",\"referrer\":"@ + json_string(r),
        None => Seq::<char>::empty(),
    }) + (match p.screen_width {
        Some(w) => ",\"screen_width\":"@ + dec_digits(w),
        None => Seq::<char>::empty(),
    }) + (match p.props {
        Some(entries) => ",\"props\":"@ + props_json(entries),
        None => Seq::<char>::empty(),
    }) + "}"@
}

impl EventPayload {
    /// Packs a payload from all six fields; no validation is performed, the
    /// remote service is the validator of record.
    pub fn new(
        domain: String,
        name: String,
        url: String,
        referrer: Option<String>,
        screen_width: Option<usize>,
        props: Option<Props>,
    ) -> (r: Self)
        ensures
            r@ == payload_view(
                domain@,
                name@,
                url@,
                match referrer {
                    Some(s) => Some(s@),
                    None => None,
                },
                match screen_width {
                    Some(w) => Some(w as nat),
                    None => None,
                },
                match props {
                    Some(p) => Some(p@),
                    None => None,
                },
            ),
    {
        EventPayload { domain, name, url, referrer, screen_width, props }
    }

    /// Serializes the payload to its exact JSON body.
    pub fn to_json(&self) -> (r: String)
        ensures
            r@ == payload_json(self@),
    {
        let mut out = String::new();
        out.append("{\"domain\":");
        push_json_string(&mut out, self.domain.as_str());
        out.append(",\"name\":");
        push_json_string(&mut out, self.name.as_str());
        out.append(",\"url\":");
        push_json_string(&mut out, self.url.as_str());
        match &self.referrer {
            Some(r) => {
                out.append(",\"referrer\":");
                push_json_string(&mut out, r.as_str());
            },
            None => {},
        }
        match &self.screen_width {
            Some(w) => {
                out.append(",\"screen_width\":");
                push_dec_u128(&mut out, *w as u128);
            },
            None => {},
        }
        match &self.props {
            Some(p) => {
                out.append(",\"props\":");
                p.append_json(&mut out);
            },
            None => {},
        }
        out.append("}");
        assert(out@ =~= payload_json(self@));
        out
    }
}

/// Law: a payload with none of the optional fields set serializes to an
/// object holding exactly the three required keys; no referrer, screen-width
/// or props key appears, not even as null.
pub proof fn lemma_minimal_payload_json(domain: Seq<char>, name: Seq<char>, url: Seq<char>)
    ensures
        payload_json(payload_view(domain, name, url, None, None, None)) =~= "{\"domain\":"@
            + json_string(domain) + ",\"name\":"@ + json_string(name) + ",\"url\":"@
            + json_string(url) + "}"@,
{
}

} // verus!
