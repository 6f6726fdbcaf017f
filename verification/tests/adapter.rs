use plausible::component::Component;
use plausible::data::{
    Campaign, Client, Consent, Context, Data, Event, EventType, HttpMethod, PageData, Session,
    TrackData, UserData,
};

fn sample_user_data(edgee_id: String) -> UserData {
    UserData {
        user_id: "123".to_string(),
        anonymous_id: "456".to_string(),
        edgee_id,
        properties: vec![
            ("prop1".to_string(), "value1".to_string()),
            ("prop2".to_string(), "10".to_string()),
        ],
    }
}

fn sample_context(edgee_id: String, locale: String, session_start: bool) -> Context {
    Context {
        page: sample_page_data(),
        user: sample_user_data(edgee_id),
        client: Client {
            city: "Paris".to_string(),
            ip: "192.168.0.1".to_string(),
            locale,
            timezone: "CET".to_string(),
            user_agent: "Chrome".to_string(),
            user_agent_architecture: "fuck knows".to_string(),
            user_agent_bitness: "64".to_string(),
            user_agent_full_version_list: "abc".to_string(),
            user_agent_version_list: "abc".to_string(),
            user_agent_mobile: "mobile".to_string(),
            user_agent_model: "don't know".to_string(),
            os_name: "MacOS".to_string(),
            os_version: "latest".to_string(),
            screen_width: 1024,
            screen_height: 768,
            continent: "Europe".to_string(),
            country_code: "FR".to_string(),
            country_name: "France".to_string(),
            region: "West Europe".to_string(),
        },
        campaign: Campaign {
            name: "random".to_string(),
            source: "random".to_string(),
            medium: "random".to_string(),
            term: "random".to_string(),
            content: "random".to_string(),
            creative_format: "random".to_string(),
            marketing_tactic: "random".to_string(),
        },
        session: Session {
            session_id: "random".to_string(),
            previous_session_id: "random".to_string(),
            session_count: 2,
            session_start,
            first_seen: 123,
            last_seen: 123,
        },
    }
}

fn sample_page_data() -> PageData {
    PageData {
        name: "page name".to_string(),
        category: "category".to_string(),
        keywords: vec!["value1".to_string(), "value2".into()],
        title: "page title".to_string(),
        url: "https://example.com/full-url?test=1".to_string(),
        path: "/full-path".to_string(),
        search: "?test=1".to_string(),
        referrer: "https://example.com/another-page".to_string(),
        properties: vec![
            ("prop1".to_string(), "value1".to_string()),
            ("prop2".to_string(), "10".to_string()),
            ("currency".to_string(), "USD".to_string()),
        ],
    }
}

fn sample_page_event(
    consent: Option<Consent>,
    edgee_id: String,
    locale: String,
    session_start: bool,
) -> Event {
    Event {
        uuid: uuid::Uuid::new_v4().to_string(),
        timestamp: 123,
        timestamp_millis: 123,
        timestamp_micros: 123,
        event_type: EventType::Page,
        data: Data::Page(sample_page_data()),
        context: sample_context(edgee_id, locale, session_start),
        consent,
    }
}

fn sample_track_event(
    name: &str,
    consent: Option<Consent>,
    edgee_id: String,
    locale: String,
    session_start: bool,
) -> Event {
    Event {
        uuid: uuid::Uuid::new_v4().to_string(),
        timestamp: 123,
        timestamp_millis: 123,
        timestamp_micros: 123,
        event_type: EventType::Track,
        data: Data::Track(TrackData {
            name: name.to_string(),
            properties: vec![("prop1".to_string(), "value1".to_string())],
        }),
        context: sample_context(edgee_id, locale, session_start),
        consent,
    }
}

fn sample_user_event(
    consent: Option<Consent>,
    edgee_id: String,
    locale: String,
    session_start: bool,
) -> Event {
    Event {
        uuid: uuid::Uuid::new_v4().to_string(),
        timestamp: 123,
        timestamp_millis: 123,
        timestamp_micros: 123,
        event_type: EventType::User,
        data: Data::User(sample_user_data(edgee_id.clone())),
        context: sample_context(edgee_id, locale, session_start),
        consent,
    }
}

fn valid_settings() -> Vec<(String, String)> {
    vec![
        (
            "instance_url".to_string(),
            "https://plausible.io".to_string(),
        ),
        ("domain".to_string(), "edgee.cloud".to_string()),
    ]
}

#[test]
fn page_works_fine() {
    let event = sample_page_event(
        Some(Consent::Granted),
        "abc".to_string(),
        "fr".to_string(),
        true,
    );
    let settings = vec![
        (
            "instance_url".to_string(),
            "https://plausible.io".to_string(),
        ),
        ("domain".to_string(), "edgee.cloud".to_string()),
    ];
    let result = Component::page(event, settings);

    assert_eq!(result.is_err(), false);
    let edgee_request = result.unwrap();
    assert_eq!(edgee_request.method, HttpMethod::Post);
    assert_eq!(edgee_request.body.is_empty(), false);
    assert_eq!(edgee_request.url.starts_with("https://plausible.io"), true);
}

#[test]
fn page_works_fine_without_instance_url() {
    let event = sample_page_event(
        Some(Consent::Granted),
        "abc".to_string(),
        "fr".to_string(),
        true,
    );
    let settings = vec![
        ("instance_url".to_string(), String::new()),
        ("domain".to_string(), "edgee.cloud".to_string()),
    ];
    let result = Component::page(event, settings);

    assert_eq!(result.is_err(), false);
    let edgee_request = result.unwrap();
    assert_eq!(edgee_request.method, HttpMethod::Post);
    assert_eq!(edgee_request.body.is_empty(), false);
    assert_eq!(edgee_request.url.starts_with("https://plausible.io"), true);
}

#[test]
fn page_body_decodes_to_expected_payload() {
    let event = sample_page_event(
        Some(Consent::Granted),
        "abc".to_string(),
        "fr".to_string(),
        true,
    );
    let result = Component::page(event, valid_settings());
    let request = result.unwrap();
    assert_eq!(request.url, "https://plausible.io/api/event");
    assert_eq!(
        request.headers,
        vec![("Content-Type".to_string(), "application/json".to_string())]
    );
    assert!(request.forward_client_headers);

    let body: serde_json::Value = serde_json::from_str(&request.body).unwrap();
    assert_eq!(body.get("name").unwrap().as_str().unwrap(), "pageview");
    assert_eq!(body.get("domain").unwrap().as_str().unwrap(), "edgee.cloud");
    assert_eq!(
        body.get("url").unwrap().as_str().unwrap(),
        "https://example.com/full-url?test=1"
    );
    assert_eq!(
        body.get("referrer").unwrap().as_str().unwrap(),
        "https://example.com/another-page"
    );
    let props = body.get("props").unwrap().as_object().unwrap();
    assert_eq!(props.len(), 3);
    assert_eq!(props.get("prop1").unwrap().as_str().unwrap(), "value1");
    assert_eq!(props.get("prop2").unwrap().as_str().unwrap(), "10");
    assert_eq!(props.get("currency").unwrap().as_str().unwrap(), "USD");
}

#[test]
fn page_on_missing_domain_is_configuration_error() {
    let event = sample_page_event(
        Some(Consent::Granted),
        "abc".to_string(),
        "fr".to_string(),
        true,
    );
    let settings = vec![(
        "instance_url".to_string(),
        "https://plausible.io".to_string(),
    )];
    let result = Component::page(event, settings);
    assert_eq!(
        result.unwrap_err(),
        "Key not found in settings: domain".to_string()
    );
}

#[test]
fn page_event_is_refused_by_user_and_track() {
    let event = sample_page_event(
        Some(Consent::Granted),
        "abc".to_string(),
        "fr".to_string(),
        true,
    );
    let result = Component::user(event, valid_settings());
    assert_eq!(result.unwrap_err(), "Not an user event!".to_string());

    let event = sample_page_event(
        Some(Consent::Granted),
        "abc".to_string(),
        "fr".to_string(),
        true,
    );
    let result = Component::track(event, valid_settings());
    assert_eq!(result.unwrap_err(), "Not a track event!".to_string());

    let event = sample_page_event(
        Some(Consent::Granted),
        "abc".to_string(),
        "fr".to_string(),
        true,
    );
    assert!(Component::page(event, valid_settings()).is_ok());
}

#[test]
fn user_event_is_refused_by_page() {
    let event = sample_user_event(
        Some(Consent::Granted),
        "abc".to_string(),
        "fr".to_string(),
        true,
    );
    let result = Component::page(event, valid_settings());
    assert_eq!(result.unwrap_err(), "Not a page event!".to_string());
}

#[test]
fn track_event_uses_action_name_and_context_page() {
    let event = sample_track_event(
        "signup",
        Some(Consent::Granted),
        "abc".to_string(),
        "fr".to_string(),
        true,
    );
    let result = Component::track(event, valid_settings());
    let request = result.unwrap();
    let body: serde_json::Value = serde_json::from_str(&request.body).unwrap();
    assert_eq!(body.get("name").unwrap().as_str().unwrap(), "signup");
    assert_eq!(
        body.get("url").unwrap().as_str().unwrap(),
        "https://example.com/full-url?test=1"
    );
    assert_eq!(
        body.get("referrer").unwrap().as_str().unwrap(),
        "https://example.com/another-page"
    );
    let props = body.get("props").unwrap().as_object().unwrap();
    assert_eq!(props.len(), 1);
    assert_eq!(props.get("prop1").unwrap().as_str().unwrap(), "value1");
}

#[test]
fn user_event_uses_context_page_and_user_props() {
    let event = sample_user_event(
        Some(Consent::Granted),
        "abc".to_string(),
        "fr".to_string(),
        true,
    );
    let result = Component::user(event, valid_settings());
    let request = result.unwrap();
    assert_eq!(request.method, HttpMethod::Post);
    let body: serde_json::Value = serde_json::from_str(&request.body).unwrap();
    assert_eq!(body.get("name").unwrap().as_str().unwrap(), "user");
    assert_eq!(
        body.get("url").unwrap().as_str().unwrap(),
        "https://example.com/full-url?test=1"
    );
    let props = body.get("props").unwrap().as_object().unwrap();
    assert_eq!(props.len(), 2);
    assert_eq!(props.get("prop1").unwrap().as_str().unwrap(), "value1");
    assert_eq!(props.get("prop2").unwrap().as_str().unwrap(), "10");
}

#[test]
fn duplicate_property_keys_keep_the_last_value() {
    let mut event = sample_page_event(
        Some(Consent::Granted),
        "abc".to_string(),
        "fr".to_string(),
        true,
    );
    if let Data::Page(page) = &mut event.data {
        page.properties = vec![
            ("a".to_string(), "1".to_string()),
            ("b".to_string(), "2".to_string()),
            ("a".to_string(), "3".to_string()),
        ];
    }
    let result = Component::page(event, valid_settings());
    let request = result.unwrap();
    let body: serde_json::Value = serde_json::from_str(&request.body).unwrap();
    let props = body.get("props").unwrap().as_object().unwrap();
    assert_eq!(props.len(), 2);
    assert_eq!(props.get("a").unwrap().as_str().unwrap(), "3");
    assert_eq!(props.get("b").unwrap().as_str().unwrap(), "2");
}

#[test]
fn custom_instance_url_is_used_verbatim() {
    let event = sample_page_event(
        Some(Consent::Granted),
        "abc".to_string(),
        "fr".to_string(),
        true,
    );
    let settings = vec![
        ("instance_url".to_string(), "https://my.host".to_string()),
        ("domain".to_string(), "edgee.cloud".to_string()),
    ];
    let result = Component::page(event, settings);
    let request = result.unwrap();
    assert_eq!(request.url, "https://my.host/api/event");
}
