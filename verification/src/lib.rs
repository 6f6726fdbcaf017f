//! Adapter that turns generic analytics events (page views, user
//! identification, custom tracked actions) into a single outbound HTTP
//! request for the Plausible ingestion API.

use vstd::prelude::*;

pub mod component;
pub mod data;
pub mod json;
pub mod payload;
pub mod props;
pub mod settings;

verus! {

/// The fixed path suffix appended to the instance base URL.
pub open spec fn api_event_path() -> Seq<char> {
    "/api/event"@
}

/// `s` begins with `prefix`.
pub open spec fn starts_with(s: Seq<char>, prefix: Seq<char>) -> bool {
    prefix.len() <= s.len() && s.subrange(0, prefix.len() as int) == prefix
}

} // verus!
