//! The three entry operations, one per event kind. Each resolves the raw
//! settings, verifies that the event's data variant matches the operation,
//! builds the payload, and finalizes it into the outbound request.

use vstd::prelude::*;

use crate::api_event_path;
use crate::data::{dict_view, Data, Dict, EdgeeRequest, Event};
use crate::json::payload_json;
use crate::payload::Payload;
use crate::props::dedup_props;
use crate::settings::{
    missing_domain_message, resolved_domain, resolved_instance_url, settings_ok, Settings,
};

verus! {

/// `page` returns a request exactly on these inputs.
pub open spec fn page_accepts(event: Event, sd: Seq<(Seq<char>, Seq<char>)>) -> bool {
    settings_ok(sd) && event.data is Page
}

/// `user` returns a request exactly on these inputs.
pub open spec fn user_accepts(event: Event, sd: Seq<(Seq<char>, Seq<char>)>) -> bool {
    settings_ok(sd) && event.data is User
}

/// `track` returns a request exactly on these inputs.
pub open spec fn track_accepts(event: Event, sd: Seq<(Seq<char>, Seq<char>)>) -> bool {
    settings_ok(sd) && event.data is Track
}

/// The shape-mismatch error `page` reports when the event is not a page event.
pub open spec fn not_page_message() -> Seq<char> {
    "Not a page event!"@
}

/// The shape-mismatch error `user` reports when the event is not a user event.
pub open spec fn not_user_message() -> Seq<char> {
    "Not an user event!"@
}

/// The shape-mismatch error `track` reports when the event is not a track event.
pub open spec fn not_track_message() -> Seq<char> {
    "Not a track event!"@
}

/// The adapter's entry point: one translation operation per event kind.
pub struct Component;

impl Component {
    /// Translates a page-view event. The payload is named `pageview` and
    /// takes `url`, `referrer` and the properties from the page data itself.
    pub fn page(event: Event, settings: Dict) -> (r: Result<EdgeeRequest, String>)
        ensures
            r is Ok <==> page_accepts(event, dict_view(settings@)),
            !settings_ok(dict_view(settings@)) ==> (r matches Err(e) && e@
                == missing_domain_message()),
            settings_ok(dict_view(settings@)) && !(event.data is Page) ==> (r matches Err(e)
                && e@ == not_page_message()),
            r matches Ok(q) ==> {
                &&& event.data matches Data::Page(p) && q.body@ == payload_json(
                    "pageview"@,
                    resolved_domain(dict_view(settings@)),
                    p.url@,
                    p.referrer@,
                    dedup_props(dict_view(p.properties@)),
                )
                &&& q.method is Post
                &&& q.url@ == resolved_instance_url(dict_view(settings@)) + api_event_path()
                &&& dict_view(q.headers@) == seq![("Content-Type"@, "application/json"@)]
                &&& q.forward_client_headers
            },
    {
        let resolved = match Settings::try_from(settings) {
            Ok(s) => s,
            Err(e) => {
                return Err(e);
            },
        };
        match event.data {
            Data::Page(page) => {
                let payload = Payload::new(
                    String::from_str("pageview"),
                    page.url,
                    page.referrer,
                    page.properties,
                );
                Ok(payload.build_request(resolved))
            },
            _ => Err(String::from_str("Not a page event!")),
        }
    }

    /// Translates a user-identification event. The payload is named `user`
    /// and imports `url` and `referrer` from the event context's page
    /// snapshot; the properties come from the user data.
    pub fn user(event: Event, settings: Dict) -> (r: Result<EdgeeRequest, String>)
        ensures
            r is Ok <==> user_accepts(event, dict_view(settings@)),
            !settings_ok(dict_view(settings@)) ==> (r matches Err(e) && e@
                == missing_domain_message()),
            settings_ok(dict_view(settings@)) && !(event.data is User) ==> (r matches Err(e)
                && e@ == not_user_message()),
            r matches Ok(q) ==> {
                &&& event.data matches Data::User(u) && q.body@ == payload_json(
                    "user"@,
                    resolved_domain(dict_view(settings@)),
                    event.context.page.url@,
                    event.context.page.referrer@,
                    dedup_props(dict_view(u.properties@)),
                )
                &&& q.method is Post
                &&& q.url@ == resolved_instance_url(dict_view(settings@)) + api_event_path()
                &&& dict_view(q.headers@) == seq![("Content-Type"@, "application/json"@)]
                &&& q.forward_client_headers
            },
    {
        let resolved = match Settings::try_from(settings) {
            Ok(s) => s,
            Err(e) => {
                return Err(e);
            },
        };
        match event.data {
            Data::User(user) => {
                let payload = Payload::import_context(
                    String::from_str("user"),
                    &event.context,
                    user.properties,
                );
                Ok(payload.build_request(resolved))
            },
            _ => Err(String::from_str("Not an user event!")),
        }
    }

    /// Translates a custom tracked action. The payload is named after the
    /// action and imports `url` and `referrer` from the event context's
    /// page snapshot; the properties come from the track data.
    pub fn track(event: Event, settings: Dict) -> (r: Result<EdgeeRequest, String>)
        ensures
            r is Ok <==> track_accepts(event, dict_view(settings@)),
            !settings_ok(dict_view(settings@)) ==> (r matches Err(e) && e@
                == missing_domain_message()),
            settings_ok(dict_view(settings@)) && !(event.data is Track) ==> (r matches Err(e)
                && e@ == not_track_message()),
            r matches Ok(q) ==> {
                &&& event.data matches Data::Track(t) && q.body@ == payload_json(
                    t.name@,
                    resolved_domain(dict_view(settings@)),
                    event.context.page.url@,
                    event.context.page.referrer@,
                    dedup_props(dict_view(t.properties@)),
                )
                &&& q.method is Post
                &&& q.url@ == resolved_instance_url(dict_view(settings@)) + api_event_path()
                &&& dict_view(q.headers@) == seq![("Content-Type"@, "application/json"@)]
                &&& q.forward_client_headers
            },
    {
        let resolved = match Settings::try_from(settings) {
            Ok(s) => s,
            Err(e) => {
                return Err(e);
            },
        };
        match event.data {
            Data::Track(track) => {
                let payload = Payload::import_context(
                    track.name,
                    &event.context,
                    track.properties,
                );
                Ok(payload.build_request(resolved))
            },
            _ => Err(String::from_str("Not a track event!")),
        }
    }
}

/// Round trip of a valid page event through `page`: by `page`'s contract,
/// the request's method is POST, and this lemma adds that its body (the
/// serialized payload) is never empty and that its URL begins with the
/// resolved instance URL.
pub proof fn lemma_page_request_round_trip(
    sd: Seq<(Seq<char>, Seq<char>)>,
    name: Seq<char>,
    url: Seq<char>,
    referrer: Seq<char>,
    props: Seq<(Seq<char>, Seq<char>)>,
)
    requires
        settings_ok(sd),
    ensures
        payload_json(name, resolved_domain(sd), url, referrer, props).len() > 0,
        crate::starts_with(
            resolved_instance_url(sd) + api_event_path(),
            resolved_instance_url(sd),
        ),
{
    reveal_strlit("{\"name\":\"");
    let base = resolved_instance_url(sd);
    assert((base + api_event_path()).subrange(0, base.len() as int) =~= base);
}

/// A page event is accepted by exactly one operation: with valid settings,
/// `page` returns a request on it while `user` and `track` refuse it with
/// their shape-mismatch errors (by the entry points' contracts, each of
/// which succeeds if and only if its own acceptance predicate holds).
pub proof fn lemma_page_event_dispatch(event: Event, sd: Seq<(Seq<char>, Seq<char>)>)
    requires
        settings_ok(sd),
        event.data is Page,
    ensures
        page_accepts(event, sd),
        !user_accepts(event, sd),
        !track_accepts(event, sd),
{
}

} // verus!
