//! Request headers for the event-recording endpoint. They travel as HTTP
//! headers beside the JSON body, never inside it.

use vstd::prelude::*;

verus! {

/// Headers for the event-recording endpoint.
#[derive(Debug, Clone)]
pub struct EventHeaders {
    /// Raw User-Agent of the visitor, used by the service to count unique
    /// visitors and to populate its device reports.
    pub user_agent: String,
    /// The forwarded-for address of the visitor, possibly a comma-separated
    /// chain of proxies; the service picks the first valid address itself,
    /// this library forwards the text unparsed.
    pub x_forwarded_for: String,
}

impl EventHeaders {
    /// Packs the two header values.
    pub fn new(user_agent: String, x_forwarded_for: String) -> (r: Self)
        ensures
            r.user_agent@ == user_agent@,
            r.x_forwarded_for@ == x_forwarded_for@,
    {
        EventHeaders { user_agent, x_forwarded_for }
    }
}

} // verus!
