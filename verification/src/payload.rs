//! The provider-facing payload and the assembly of the outbound request.
//!
//! A payload is constructed in one step from all of its mandatory fields
//! (`name`, `url`, `referrer`, `props`), so a partially populated payload
//! can never be observed. `domain` starts empty and is always overwritten
//! with the resolved settings' domain when the request is finalized.

use vstd::prelude::*;

use crate::api_event_path;
use crate::data::{dict_view, Context, Dict, EdgeeRequest, HttpMethod};
use crate::json::{payload_body, payload_json};
use crate::props::{convert_props, dedup_props, lemma_props_last_write_wins, unique_keys};
use crate::settings::Settings;

verus! {

/// The provider-facing event record being assembled.
pub struct Payload {
    pub name: String,
    pub domain: String,
    pub url: String,
    pub referrer: String,
    pub props: Dict,
}

impl Payload {
    /// The props mapping never carries a key twice.
    pub open spec fn wf(self) -> bool {
        unique_keys(dict_view(self.props@))
    }

    /// Builds a payload from all of its mandatory fields. The property
    /// list is converted to the unique-key props mapping, later occurrences
    /// of a key overwriting earlier ones; `domain` starts empty.
    pub fn new(name: String, url: String, referrer: String, properties: Dict) -> (p: Payload)
        ensures
            p.name == name,
            p.domain@ == Seq::<char>::empty(),
            p.url == url,
            p.referrer == referrer,
            dict_view(p.props@) == dedup_props(dict_view(properties@)),
            p.wf(),
    {
        proof {
            lemma_props_last_write_wins(dict_view(properties@));
        }
        let props = convert_props(properties);
        Payload { name, domain: String::new(), url, referrer, props }
    }

    /// Builds a payload whose `url` and `referrer` are imported from the
    /// event context's page snapshot in one step.
    pub fn import_context(name: String, context: &Context, properties: Dict) -> (p: Payload)
        ensures
            p.name == name,
            p.domain@ == Seq::<char>::empty(),
            p.url@ == context.page.url@,
            p.referrer@ == context.page.referrer@,
            dict_view(p.props@) == dedup_props(dict_view(properties@)),
            p.wf(),
    {
        Payload::new(name, context.page.url.clone(), context.page.referrer.clone(), properties)
    }

    /// Finalizes the payload into the outbound request: `domain` is
    /// overwritten with the resolved settings' domain, the payload is
    /// serialized to the JSON body, and the request envelope is fixed to a
    /// POST against the instance's event-ingestion path with a JSON
    /// content-type header and client headers forwarded.
    pub fn build_request(self, settings: Settings) -> (r: EdgeeRequest)
        ensures
            r.method is Post,
            r.url@ == settings.instance_url@ + api_event_path(),
            r.body@ == payload_json(
                self.name@,
                settings.domain@,
                self.url@,
                self.referrer@,
                dict_view(self.props@),
            ),
            dict_view(r.headers@) == seq![("Content-Type"@, "application/json"@)],
            r.forward_client_headers,
    {
        let body = payload_body(
            self.name.as_str(),
            settings.domain.as_str(),
            self.url.as_str(),
            self.referrer.as_str(),
            &self.props,
        );
        let url = settings.instance_url.concat("/api/event");
        let mut headers: Dict = Vec::new();
        headers.push((String::from_str("Content-Type"), String::from_str("application/json")));
        proof {
            assert(dict_view(headers@) =~= seq![("Content-Type"@, "application/json"@)]);
        }
        EdgeeRequest {
            method: HttpMethod::Post,
            url,
            headers,
            body,
            forward_client_headers: true,
        }
    }
}

} // verus!
