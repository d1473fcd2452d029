use http_gateway::dispatch::{handle_message, DispatchOutcome, ParsedEnvelope};
use http_gateway::event::{Config, ConfigMap, State};
use http_gateway::extract_audience;
use http_gateway::identity::{parse_account_id, parse_agent_id};
use http_gateway::request::{RequestData, RequestResource};
use http_gateway::topic::{events_topic, response_topic};
use http_gateway::{AccountId, AgentId, ErrorKind, GatewayError, InFlightRequests, Value};

fn account(label: &str, audience: &str) -> AccountId {
    AccountId::new(String::from(label), String::from(audience))
}

fn agent(label: &str, account_label: &str, audience: &str) -> AgentId {
    AgentId::new(String::from(label), account(account_label, audience))
}

#[test]
fn extracts_audience() {
    let topic = "test/test/test/audiences/test-audience/events";
    let res = extract_audience(topic);

    assert!(res.is_ok());
    assert_eq!("test-audience", res.unwrap());

    let topic = "test/test/test/audiences";
    let res = extract_audience(topic);
    assert!(res.is_err());

    let topic = "test/test/test/audiences/events";
    let res = extract_audience(topic);
    assert!(res.is_err());
}

#[test]
fn extracts_audience_from_short_topic() {
    let res = extract_audience("a/b/audiences/ACME/events");
    assert_eq!(res.unwrap(), "ACME");
}

#[test]
fn rejects_topic_missing_audience_and_events() {
    let err = extract_audience("a/b/audiences").unwrap_err();
    assert_eq!(err.kind(), ErrorKind::Parse);
    assert_eq!(
        err.detail().as_str(),
        "topic does not match the pattern 'audiences/AUDIENCE/events': a/b/audiences"
    );
}

#[test]
fn rejects_topic_with_events_in_audience_position() {
    let err = extract_audience("a/b/audiences/events").unwrap_err();
    assert_eq!(err.kind(), ErrorKind::Parse);
}

#[test]
fn normalization_ignores_trailing_and_repeated_separators() {
    assert_eq!(
        extract_audience("a/b/audiences/ACME/events/").unwrap(),
        "ACME"
    );
    assert_eq!(
        extract_audience("a/b/audiences/ACME//events").unwrap(),
        "ACME"
    );
    assert_eq!(
        extract_audience("a/b/audiences//ACME/events").unwrap(),
        "ACME"
    );
}

#[test]
fn normalization_drops_dot_segments() {
    assert_eq!(
        extract_audience("a/./audiences/ACME/events").unwrap(),
        "ACME"
    );
    assert_eq!(extract_audience("./audiences/ACME/events").unwrap(), "ACME");
    assert_eq!(
        extract_audience("audiences/ACME/events/.").unwrap(),
        "ACME"
    );
}

#[test]
fn rejects_non_plain_audience_segment() {
    assert!(extract_audience("a/b/audiences/../events").is_err());
    assert!(extract_audience("a/audiences//events").is_err());
    assert!(extract_audience("a/audiences/./events").is_err());
}

#[test]
fn parent_segments_do_not_match_the_literals() {
    assert!(extract_audience("a/../ACME/events").is_err());
    assert!(extract_audience("audiences/ACME/..").is_err());
}

#[test]
fn built_events_topic_parses_back() {
    let topic = events_topic("some-tenant");
    assert_eq!(topic, "audiences/some-tenant/events");
    assert_eq!(extract_audience(&topic).unwrap(), "some-tenant");
}

fn acme_router() -> State {
    let mut config = ConfigMap::new();
    let entry = Config::new(String::from("http://cb"), vec![account("a", "svc")]);
    assert!(config.add(String::from("ACME"), entry));
    State::new(config)
}

#[test]
fn forwards_event_from_allowed_source_unchanged() {
    let router = acme_router();
    let payload = Value::Text(String::from("payload"));
    let out = router
        .handle("x/audiences/ACME/events", payload, &account("a", "svc"))
        .unwrap();
    assert_eq!(out.payload, Value::Text(String::from("payload")));
    assert_eq!(out.destination, "http://cb");
}

#[test]
fn rejects_event_from_unlisted_source_naming_both() {
    let router = acme_router();
    let err = router
        .handle("x/audiences/ACME/events", Value::Null, &account("b", "svc"))
        .unwrap_err();
    assert_eq!(err.kind(), ErrorKind::Authorization);
    assert_eq!(
        err.detail().as_str(),
        "sending events for audience = 'ACME' from application = 'b.svc' is not allowed"
    );
}

#[test]
fn rejects_event_for_unconfigured_audience_naming_it() {
    let router = acme_router();
    let err = router
        .handle("x/audiences/OTHER/events", Value::Null, &account("a", "svc"))
        .unwrap_err();
    assert_eq!(err.kind(), ErrorKind::Authorization);
    assert_eq!(
        err.detail().as_str(),
        "sending events for audience = 'OTHER' is not allowed"
    );
}

#[test]
fn duplicate_audience_is_refused() {
    let mut config = ConfigMap::new();
    assert!(config.add(
        String::from("ACME"),
        Config::new(String::from("http://cb"), vec![])
    ));
    assert!(!config.add(
        String::from("ACME"),
        Config::new(String::from("http://elsewhere"), vec![])
    ));
}

#[test]
fn resolve_delivers_exactly_once() {
    let mut store = InFlightRequests::new();
    store.save_request(7).unwrap();
    assert!(store.finish_request(7, Value::Int(42)));
    assert!(!store.finish_request(7, Value::Int(43)));
    assert_eq!(store.take_response(7), Some(Value::Int(42)));
    assert_eq!(store.take_response(7), None);
}

#[test]
fn resolve_unknown_id_is_noop() {
    let mut store = InFlightRequests::new();
    store.save_request(1).unwrap();
    assert!(!store.finish_request(2, Value::Int(9)));
    assert_eq!(store.len(), 1);
    assert_eq!(store.take_response(1), None);
}

#[test]
fn resolve_after_remove_is_noop() {
    let mut store = InFlightRequests::new();
    store.save_request(5).unwrap();
    store.remove_request(5);
    assert!(!store.finish_request(5, Value::Null));
    assert_eq!(store.len(), 0);
}

#[test]
fn duplicate_registration_fails() {
    let mut store = InFlightRequests::new();
    store.save_request(3).unwrap();
    let err = store.save_request(3).unwrap_err();
    assert_eq!(err.kind(), ErrorKind::Internal);
    assert_eq!(store.len(), 1);
}

fn request_body() -> RequestData {
    RequestData {
        me: agent("web", "12345", "netology.ru"),
        destination: account("conference", "netology-group.services"),
        payload: Value::Text(String::from("test")),
        method: String::from("room.create"),
    }
}

#[test]
fn identity_mismatch_is_forbidden() {
    let mut resource = RequestResource::new(InFlightRequests::new());
    let caller = account("intruder", "elsewhere");
    let err = resource.request_sync(request_body(), &caller).unwrap_err();
    assert_eq!(err.kind(), ErrorKind::Validation);
    assert_eq!(err.http_status(), Some(403));
    assert_eq!(
        err.detail().as_str(),
        "account id = 'intruder.elsewhere' from the access token doesn't match the one in \
         the payload = '12345.netology.ru'"
    );
    assert_eq!(resource.in_flight_requests.len(), 0);
}

#[test]
fn matching_identity_builds_and_registers_request() {
    let mut resource = RequestResource::new(InFlightRequests::new());
    let caller = account("12345", "netology.ru");
    let bus = resource.request_sync(request_body(), &caller).unwrap();
    assert_eq!(bus.method, "room.create");
    assert_eq!(bus.payload, Value::Text(String::from("test")));
    assert_eq!(
        bus.response_topic,
        "agents/web.12345.netology.ru/api/v1/in/conference.netology-group.services"
    );
    assert_eq!(resource.in_flight_requests.len(), 1);
}

#[test]
fn timeout_reclaims_slot_and_late_response_is_noop() {
    let mut resource = RequestResource::new(InFlightRequests::new());
    let caller = account("12345", "netology.ru");
    let bus = resource.request_sync(request_body(), &caller).unwrap();
    let err = resource.on_timeout(bus.correlation_id);
    assert_eq!(err.kind(), ErrorKind::Timeout);
    assert_eq!(err.http_status(), Some(504));
    assert_eq!(resource.in_flight_requests.len(), 0);
    assert!(!resource
        .in_flight_requests
        .finish_request(bus.correlation_id, Value::Null));
}

#[test]
fn publish_failure_reclaims_slot() {
    let mut resource = RequestResource::new(InFlightRequests::new());
    let caller = account("12345", "netology.ru");
    let bus = resource.request_sync(request_body(), &caller).unwrap();
    let err = resource.on_publish_failure(bus.correlation_id, String::from("broken pipe"));
    assert_eq!(err.kind(), ErrorKind::Publish);
    assert_eq!(err.http_status(), Some(422));
    assert_eq!(err.detail().as_str(), "broken pipe");
    assert_eq!(resource.in_flight_requests.len(), 0);
}

#[test]
fn interleaved_resolutions_never_cross_deliver() {
    let mut store = InFlightRequests::new();
    store.save_request(1).unwrap();
    store.save_request(2).unwrap();
    store.save_request(3).unwrap();
    assert!(store.finish_request(2, Value::Int(20)));
    assert!(store.finish_request(3, Value::Int(30)));
    assert!(store.finish_request(1, Value::Int(10)));
    assert_eq!(store.take_response(1), Some(Value::Int(10)));
    assert_eq!(store.take_response(2), Some(Value::Int(20)));
    assert_eq!(store.take_response(3), Some(Value::Int(30)));
}

#[test]
fn dispatch_routes_response_to_store() {
    let router = acme_router();
    let mut store = InFlightRequests::new();
    store.save_request(11).unwrap();
    let outcome = handle_message(
        &router,
        &mut store,
        "agents/web.a.svc/api/v1/in/x.y",
        Some(ParsedEnvelope::Response {
            correlation_id: 11,
            payload: Value::Bool(true),
        }),
    );
    assert!(matches!(outcome, DispatchOutcome::Resolved(true)));
    assert_eq!(store.take_response(11), Some(Value::Bool(true)));
}

#[test]
fn dispatch_routes_event_to_webhook() {
    let router = acme_router();
    let mut store = InFlightRequests::new();
    let outcome = handle_message(
        &router,
        &mut store,
        "x/audiences/ACME/events",
        Some(ParsedEnvelope::Event {
            payload: Value::Int(5),
            source: account("a", "svc"),
        }),
    );
    match outcome {
        DispatchOutcome::Forward(m) => {
            assert_eq!(m.payload, Value::Int(5));
            assert_eq!(m.destination, "http://cb");
        }
        other => panic!("expected a forwarded message, got {:?}", other),
    }
}

#[test]
fn dispatch_drops_unsupported_and_unparsed_messages() {
    let router = acme_router();
    let mut store = InFlightRequests::new();
    let outcome = handle_message(&router, &mut store, "t", Some(ParsedEnvelope::Other));
    match outcome {
        DispatchOutcome::Dropped(e) => assert_eq!(e.kind(), ErrorKind::Parse),
        other => panic!("expected a drop, got {:?}", other),
    }
    let outcome = handle_message(&router, &mut store, "t", None);
    match outcome {
        DispatchOutcome::Dropped(e) => assert_eq!(e.kind(), ErrorKind::Parse),
        other => panic!("expected a drop, got {:?}", other),
    }
}

#[test]
fn http_status_mapping_is_exact() {
    let status = |kind| GatewayError::new(kind, String::new()).http_status();
    assert_eq!(status(ErrorKind::Validation), Some(403));
    assert_eq!(status(ErrorKind::Publish), Some(422));
    assert_eq!(status(ErrorKind::Lock), Some(422));
    assert_eq!(status(ErrorKind::Internal), Some(422));
    assert_eq!(status(ErrorKind::Timeout), Some(504));
    assert_eq!(status(ErrorKind::Parse), None);
    assert_eq!(status(ErrorKind::Authorization), None);
}

#[test]
fn parses_agent_and_account_identities() {
    let me = parse_agent_id("web.12345.netology.ru").unwrap();
    assert_eq!(me.label, "web");
    assert_eq!(me.account.label, "12345");
    assert_eq!(me.account.audience, "netology.ru");

    let dest = parse_account_id("conference.netology-group.services").unwrap();
    assert_eq!(dest.label, "conference");
    assert_eq!(dest.audience, "netology-group.services");

    assert!(parse_account_id("nodot").is_none());
    assert!(parse_agent_id("only.one").is_none());
}

#[test]
fn response_topic_has_expected_shape() {
    let me = agent("web", "12345", "netology.ru");
    let dest = account("conference", "netology-group.services");
    assert_eq!(
        response_topic(&me, &dest),
        "agents/web.12345.netology.ru/api/v1/in/conference.netology-group.services"
    );
}
