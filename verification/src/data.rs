//! The host-side event schema consumed by the adapter, and the outbound
//! request shape handed back to the host, modelled as plain values.

use vstd::prelude::*;

verus! {

/// A flat list of string key/value pairs, as the host delivers both the raw
/// configuration and per-event property lists.
pub type Dict = Vec<(String, String)>;

/// The character-level view of a key/value pair list.
pub open spec fn dict_view(d: Seq<(String, String)>) -> Seq<(Seq<char>, Seq<char>)> {
    d.map_values(|kv: (String, String)| (kv.0@, kv.1@))
}

/// Page-view data: the page the event was recorded on.
pub struct PageData {
    pub name: String,
    pub category: String,
    pub keywords: Vec<String>,
    pub title: String,
    pub url: String,
    pub path: String,
    pub search: String,
    pub referrer: String,
    pub properties: Dict,
}

/// User-identification data.
pub struct UserData {
    pub user_id: String,
    pub anonymous_id: String,
    pub edgee_id: String,
    pub properties: Dict,
}

/// Custom tracked-action data.
pub struct TrackData {
    pub name: String,
    pub properties: Dict,
}

/// The discriminated payload of an event; its variant must match the
/// operation invoked on the event.
pub enum Data {
    Page(PageData),
    User(UserData),
    Track(TrackData),
}

/// Client device attributes, part of the ambient context snapshot.
pub struct Client {
    pub city: String,
    pub ip: String,
    pub locale: String,
    pub timezone: String,
    pub user_agent: String,
    pub user_agent_architecture: String,
    pub user_agent_bitness: String,
    pub user_agent_full_version_list: String,
    pub user_agent_version_list: String,
    pub user_agent_mobile: String,
    pub user_agent_model: String,
    pub os_name: String,
    pub os_version: String,
    pub screen_width: i32,
    pub screen_height: i32,
    pub continent: String,
    pub country_code: String,
    pub country_name: String,
    pub region: String,
}

/// Campaign attributes, part of the ambient context snapshot.
pub struct Campaign {
    pub name: String,
    pub source: String,
    pub medium: String,
    pub term: String,
    pub content: String,
    pub creative_format: String,
    pub marketing_tactic: String,
}

/// Session attributes, part of the ambient context snapshot.
pub struct Session {
    pub session_id: String,
    pub previous_session_id: String,
    pub session_count: i32,
    pub session_start: bool,
    pub first_seen: i64,
    pub last_seen: i64,
}

/// Ambient snapshot attached to every event. This adapter reads only
/// `page.url` and `page.referrer` from it.
pub struct Context {
    pub page: PageData,
    pub user: UserData,
    pub client: Client,
    pub campaign: Campaign,
    pub session: Session,
}

/// The consent signal attached to an event.
pub enum Consent {
    Pending,
    Granted,
    Denied,
}

/// The kind tag the host assigns to an event.
pub enum EventType {
    Page,
    Track,
    User,
}

/// An immutable analytics event delivered by the host.
pub struct Event {
    pub uuid: String,
    pub timestamp: i64,
    pub timestamp_millis: i64,
    pub timestamp_micros: i64,
    pub event_type: EventType,
    pub data: Data,
    pub context: Context,
    pub consent: Option<Consent>,
}

/// HTTP method of the outbound request.
#[derive(Debug, PartialEq, Eq, Structural)]
pub enum HttpMethod {
    Get,
    Put,
    Post,
    Delete,
}

/// The fully assembled HTTP request description returned to the host for
/// transport.
#[derive(Debug)]
pub struct EdgeeRequest {
    pub method: HttpMethod,
    pub url: String,
    pub headers: Dict,
    pub body: String,
    pub forward_client_headers: bool,
}

} // verus!
