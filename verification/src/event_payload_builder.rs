//! Incremental construction of an event payload: the builder starts from the
//! three required fields, each setter fills one optional field, and `build`
//! projects the accumulated fields into a payload without consuming the
//! builder.

use vstd::prelude::*;

use crate::event_payload::{payload_json, payload_view, EventPayload, EventPayloadView};
use crate::prop_value::JsonScalar;
use crate::props::Props;

verus! {

/// A builder for [`EventPayload`]: the three required fields plus whatever
/// optional fields have been set so far.
#[derive(Debug, Clone)]
pub struct EventPayloadBuilder {
    /// Domain of the site as registered with the service.
    pub domain: String,
    /// Name of the event.
    pub name: String,
    /// URL of the page where the event was triggered.
    pub url: String,
    /// Referrer for this event, if set.
    pub referrer: Option<String>,
    /// Width of the screen in pixels, if set.
    pub screen_width: Option<usize>,
    /// Custom properties for the event, if set.
    pub props: Option<Props>,
}

impl View for EventPayloadBuilder {
    type V = EventPayloadView;

    open spec fn view(&self) -> EventPayloadView {
        EventPayloadView {
            domain: self.domain@,
            name: self.name@,
            url: self.url@,
            referrer: match self.referrer {
                Some(r) => Some(r@),
                None => None,
            },
            screen_width: match self.screen_width {
                Some(w) => Some(w as nat),
                None => None,
            },
            props: match self.props {
                Some(p) => Some(p@),
                None => None,
            },
        }
    }
}

/// A fresh builder's model: the required fields, all optionals unset.
pub open spec fn builder_view_new(
    domain: Seq<char>,
    name: Seq<char>,
    url: Seq<char>,
) -> EventPayloadView {
    payload_view(domain, name, url, None, None, None)
}

/// The model after setting the referrer.
pub open spec fn with_referrer(b: EventPayloadView, referrer: Seq<char>) -> EventPayloadView {
    EventPayloadView { referrer: Some(referrer), ..b }
}

/// The model after setting the screen width.
pub open spec fn with_screen_width(b: EventPayloadView, screen_width: nat) -> EventPayloadView {
    EventPayloadView { screen_width: Some(screen_width), ..b }
}

/// The model after setting the custom properties.
pub open spec fn with_props(
    b: EventPayloadView,
    props: Seq<(Seq<char>, JsonScalar)>,
) -> EventPayloadView {
    EventPayloadView { props: Some(props), ..b }
}

impl EventPayloadBuilder {
    /// A builder holding the three required fields, all optionals unset.
    pub fn new(domain: String, name: String, url: String) -> (r: Self)
        ensures
            r@ == builder_view_new(domain@, name@, url@),
    {
        EventPayloadBuilder { domain, name, url, referrer: None, screen_width: None, props: None }
    }

    /// Sets the referrer, leaving every other field as it was.
    pub fn referrer(self, referrer: String) -> (r: Self)
        ensures
            r@ == with_referrer(self@, referrer@),
    {
        EventPayloadBuilder { referrer: Some(referrer), ..self }
    }

    /// Sets the screen width, leaving every other field as it was.
    pub fn screen_width(self, screen_width: usize) -> (r: Self)
        ensures
            r@ == with_screen_width(self@, screen_width as nat),
    {
        EventPayloadBuilder { screen_width: Some(screen_width), ..self }
    }

    /// Sets the custom properties, leaving every other field as it was.
    pub fn props(self, props: Props) -> (r: Self)
        ensures
            r@ == with_props(self@, props@),
    {
        EventPayloadBuilder { props: Some(props), ..self }
    }

    /// Projects the accumulated fields into a payload. The builder is only
    /// read, so it stays valid and may be built from again.
    pub fn build(&self) -> (r: EventPayload)
        ensures
            r@ == self@,
    {
        let referrer = match &self.referrer {
            Some(r) => Some(r.clone()),
            None => None,
        };
        let props = match &self.props {
            Some(p) => Some(p.clone()),
            None => None,
        };
        EventPayload::new(
            self.domain.clone(),
            self.name.clone(),
            self.url.clone(),
            referrer,
            self.screen_width,
            props,
        )
    }
}

impl EventPayload {
    /// A builder pre-populated with the three required fields.
    pub fn builder(domain: String, name: String, url: String) -> (r: EventPayloadBuilder)
        ensures
            r@ == builder_view_new(domain@, name@, url@),
    {
        EventPayloadBuilder::new(domain, name, url)
    }
}

/// The builder model after applying whichever of the optional fields are
/// given, each at most once.
pub open spec fn with_optionals(
    b: EventPayloadView,
    referrer: Option<Seq<char>>,
    screen_width: Option<nat>,
    props: Option<Seq<(Seq<char>, JsonScalar)>>,
) -> EventPayloadView {
    let b1 = match referrer {
        Some(r) => with_referrer(b, r),
        None => b,
    };
    let b2 = match screen_width {
        Some(w) => with_screen_width(b1, w),
        None => b1,
    };
    match props {
        Some(p) => with_props(b2, p),
        None => b2,
    }
}

/// Law: for any required fields and any subset of optional fields, a payload
/// accumulated through the builder serializes exactly as one constructed
/// directly from the same fields.
pub proof fn lemma_builder_matches_direct(
    domain: Seq<char>,
    name: Seq<char>,
    url: Seq<char>,
    referrer: Option<Seq<char>>,
    screen_width: Option<nat>,
    props: Option<Seq<(Seq<char>, JsonScalar)>>,
)
    ensures
        payload_json(with_optionals(builder_view_new(domain, name, url), referrer, screen_width, props))
            == payload_json(payload_view(domain, name, url, referrer, screen_width, props)),
{
}

/// Law: the optional-field setters commute, so the order of the builder calls
/// does not change the built payload.
pub proof fn lemma_setters_commute(
    b: EventPayloadView,
    referrer: Seq<char>,
    screen_width: nat,
    props: Seq<(Seq<char>, JsonScalar)>,
)
    ensures
        with_screen_width(with_referrer(b, referrer), screen_width) == with_referrer(
            with_screen_width(b, screen_width),
            referrer,
        ),
        with_props(with_referrer(b, referrer), props) == with_referrer(
            with_props(b, props),
            referrer,
        ),
        with_props(with_screen_width(b, screen_width), props) == with_screen_width(
            with_props(b, props),
            screen_width,
        ),
{
}

/// Law: building is a pure projection of the builder's fields, so building
/// twice from an unmodified builder yields payloads with identical JSON.
pub proof fn lemma_build_idempotent(
    b: EventPayloadView,
    first: EventPayloadView,
    second: EventPayloadView,
)
    requires
        first == b,
        second == b,
    ensures
        payload_json(first) == payload_json(second),
{
}

} // verus!
