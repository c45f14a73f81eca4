use endpoint_broker::broker::{Dispatch, EndpointBrokerState};
use endpoint_broker::composite::CompositeTable;
use endpoint_broker::forwarder::{
    apply_event_filter, apply_response, handled_event_response, match_filter_passes, get_composite_filter, BrokerOutputForwarder, update_response, BrokerOutput, Forwarded, JsonRpcApiResponse,
};
use endpoint_broker::json::{composite_response, request_payload};
use endpoint_broker::plugin::PluginState;
use endpoint_broker::registry::RequestRegistry;
use endpoint_broker::request::{BrokerError, BrokerRequest, ListenKind, RpcRequest, Rule};
use endpoint_broker::rules::{MethodRule, RuleEngine};
use endpoint_broker::thunder::ThunderBroker;

fn rule(alias: &str) -> Rule {
    Rule {
        alias: alias.to_string(),
        endpoint: None,
        request_filter: None,
        response_filter: None,
        event_filter: None,
        match_filter: None,
        event_handler: None,
    }
}

fn rpc(session: &str, method: &str, params: &str, listen: ListenKind) -> RpcRequest {
    RpcRequest {
        session_id: session.to_string(),
        request_id: format!("req-{}", method),
        call_id: 1000,
        method: method.to_string(),
        params_json: params.to_string(),
        listen,
    }
}

fn broker_with(rules: Vec<(&str, Rule)>, start: u64) -> EndpointBrokerState {
    let rules = rules
        .into_iter()
        .map(|(m, r)| MethodRule { method: m.to_string(), rule: r })
        .collect();
    let mut state = EndpointBrokerState::new(RuleEngine::new(rules), start);
    state.add_endpoint("thunder".to_string());
    state
}

fn forwarded_request(d: Dispatch) -> BrokerRequest {
    match d {
        Dispatch::Forward { request, .. } => request,
        other => panic!("expected a forward, got {:?}", other),
    }
}

fn response(id: Option<u64>, method: Option<&str>, result: Option<&str>) -> JsonRpcApiResponse {
    JsonRpcApiResponse {
        id,
        method: method.map(|m| m.to_string()),
        result: result.map(|r| r.to_string()),
        error: None,
        params: None,
    }
}

fn activated_driver(callsign: &str) -> ThunderBroker {
    let mut t = ThunderBroker::new();
    t.on_state_change(&callsign.to_string(), PluginState::Activated);
    t
}

#[test]
fn simple_call_round_trip() {
    let mut state = broker_with(vec![("device.id", rule("DeviceInfo.1.id"))], 0);
    let d = state.handle_brokerage(rpc("s1", "device.id", "[{\"ctx\":{}}]", ListenKind::Call));
    let req = forwarded_request(d);
    assert_eq!(req.rpc.call_id, 1);
    let mut driver = activated_driver("DeviceInfo");
    let frames = driver.handle_request(&req, None, 900, 0).unwrap();
    assert_eq!(frames, vec!["{\"jsonrpc\":\"2.0\",\"id\":1,\"method\":\"DeviceInfo.1.id\"}".to_string()]);

    let out = BrokerOutput::new(response(Some(1), None, Some("\"SER123\"")));
    match BrokerOutputForwarder::forward(&mut state.registry, out) {
        Forwarded::Deliver { request, response, filter, is_event } => {
            assert_eq!(request.rpc.request_id, "req-device.id");
            assert_eq!(response.id, Some(1000));
            assert_eq!(response.result, Some("\"SER123\"".to_string()));
            assert!(filter.is_none());
            assert!(!is_event);
        }
        other => panic!("unexpected {:?}", other),
    }
    assert!(!state.registry.contains(1));
}

#[test]
fn response_filter_is_handed_on_with_the_result() {
    let mut r = rule("DeviceInfo.1.sku");
    let f = "if .result.success then (.result.stbVersion | split(\"_\")[0]) else null end";
    r.response_filter = Some(f.to_string());
    let mut state = broker_with(vec![("device.sku", r)], 0);
    let req = forwarded_request(state.handle_brokerage(rpc("s1", "device.sku", "[{}]", ListenKind::Call)));
    let result = "{\"success\":true,\"stbVersion\":\"SCXI11BEI_VBN_24Q3\"}";
    let out = BrokerOutput::new(response(Some(req.rpc.call_id), None, Some(result)));
    match BrokerOutputForwarder::forward(&mut state.registry, out) {
        Forwarded::Deliver { response, filter, .. } => {
            assert_eq!(filter, Some(f.to_string()));
            assert_eq!(response.result, Some(result.to_string()));
        }
        other => panic!("unexpected {:?}", other),
    }
}

#[test]
fn subscribe_ack_then_event_delivery() {
    let mut state = broker_with(vec![("events.onFoo", rule("Foo.1.changed"))], 6);
    let req = forwarded_request(state.handle_brokerage(rpc("s1", "events.onFoo", "[{}]", ListenKind::Listen)));
    assert_eq!(req.rpc.call_id, 7);
    let mut driver = activated_driver("Foo");
    let frames = driver.handle_request(&req, None, 900, 0).unwrap();
    assert_eq!(
        frames,
        vec![
            "{\"jsonrpc\":\"2.0\",\"id\":7,\"method\":\"Foo.1.register\",\"params\":{\"event\":\"changed\",\"id\":\"7\"}}"
                .to_string()
        ]
    );

    let ack = BrokerOutput::new(response(Some(7), None, Some("null")));
    match BrokerOutputForwarder::forward(&mut state.registry, ack) {
        Forwarded::Deliver { response, .. } => {
            assert_eq!(response.id, Some(1000));
            assert_eq!(
                response.result,
                Some("{\"listening\":true,\"event\":\"events.onFoo\"}".to_string())
            );
        }
        other => panic!("unexpected {:?}", other),
    }
    assert!(state.registry.contains(7));

    let frame = JsonRpcApiResponse {
        id: None,
        method: Some("7.changed".to_string()),
        result: None,
        error: None,
        params: Some("{\"v\":1}".to_string()),
    };
    let event = update_response(&frame, None);
    match BrokerOutputForwarder::forward(&mut state.registry, BrokerOutput::new(event)) {
        Forwarded::Deliver { request, response, is_event, .. } => {
            assert!(is_event);
            assert_eq!(request.rpc.request_id, "req-events.onFoo");
            assert_eq!(response.id, Some(1000));
            assert_eq!(response.method, Some("events.onFoo".to_string()));
            assert_eq!(response.params, Some("{\"v\":1}".to_string()));
        }
        other => panic!("unexpected {:?}", other),
    }
    assert!(state.registry.contains(7));
}

#[test]
fn second_ack_of_a_subscription_is_dropped() {
    let mut state = broker_with(vec![("events.onFoo", rule("Foo.1.changed"))], 0);
    let req = forwarded_request(state.handle_brokerage(rpc("s1", "events.onFoo", "[{}]", ListenKind::Listen)));
    let id = req.rpc.call_id;
    let first = BrokerOutputForwarder::forward(&mut state.registry, BrokerOutput::new(response(Some(id), None, Some("null"))));
    assert!(matches!(first, Forwarded::Deliver { .. }));
    let second = BrokerOutputForwarder::forward(&mut state.registry, BrokerOutput::new(response(Some(id), None, Some("null"))));
    assert!(matches!(second, Forwarded::Dropped));
}

#[test]
fn plugin_activation_on_first_call() {
    let mut state = broker_with(vec![("xyz.foo", rule("Xyz.foo"))], 0);
    let req = forwarded_request(state.handle_brokerage(rpc("s1", "xyz.foo", "[{}]", ListenKind::Call)));
    let mut driver = ThunderBroker::new();
    let frames = driver.handle_request(&req, None, 500, 0).unwrap();
    assert_eq!(
        frames,
        vec!["{\"jsonrpc\":\"2.0\",\"id\":500,\"method\":\"Controller.1.status@Xyz\"}".to_string()]
    );
    let released = driver.on_state_change(&"Xyz".to_string(), PluginState::Activated);
    assert_eq!(released.len(), 1);
    let frames = driver.handle_request(&released[0], None, 501, 0).unwrap();
    assert_eq!(
        frames,
        vec![format!("{{\"jsonrpc\":\"2.0\",\"id\":{},\"method\":\"Xyz.foo\"}}", req.rpc.call_id)]
    );
    let out = BrokerOutput::new(response(Some(req.rpc.call_id), None, Some("42")));
    match BrokerOutputForwarder::forward(&mut state.registry, out) {
        Forwarded::Deliver { request, response, .. } => {
            assert_eq!(request.rpc.session_id, "s1");
            assert_eq!(response.result, Some("42".to_string()));
        }
        other => panic!("unexpected {:?}", other),
    }
}

#[test]
fn unregister_after_session_close() {
    let mut state = broker_with(
        vec![("events.onA", rule("A.1.a")), ("events.onB", rule("B.1.b"))],
        0,
    );
    let mut driver = ThunderBroker::new();
    let a = forwarded_request(state.handle_brokerage(rpc("S", "events.onA", "[{}]", ListenKind::Listen)));
    let b = forwarded_request(state.handle_brokerage(rpc("S", "events.onB", "[{}]", ListenKind::Listen)));
    driver.prepare_request(&a, None, 0).unwrap();
    driver.prepare_request(&b, None, 0).unwrap();
    let frames = driver.cleanup_session("S");
    assert_eq!(
        frames,
        vec![
            "{\"jsonrpc\":\"2.0\",\"id\":1,\"method\":\"A.1.unregister\",\"params\":{\"event\":\"a\",\"id\":\"1\"}}".to_string(),
            "{\"jsonrpc\":\"2.0\",\"id\":2,\"method\":\"B.1.unregister\",\"params\":{\"event\":\"b\",\"id\":\"2\"}}".to_string(),
        ]
    );
    assert_eq!(driver.subscriptions.len(), 0);
    assert!(driver.cleanup_session("S").is_empty());
    let again = forwarded_request(state.handle_brokerage(rpc("T", "events.onA", "[{}]", ListenKind::Listen)));
    assert!(again.rpc.call_id > b.rpc.call_id);
}

#[test]
fn cleanup_keeps_other_sessions() {
    let mut state = broker_with(vec![("events.onA", rule("A.1.a"))], 0);
    let mut driver = ThunderBroker::new();
    let a = forwarded_request(state.handle_brokerage(rpc("S", "events.onA", "[{}]", ListenKind::Listen)));
    let b = forwarded_request(state.handle_brokerage(rpc("T", "events.onA", "[{}]", ListenKind::Listen)));
    driver.prepare_request(&a, None, 0).unwrap();
    driver.prepare_request(&b, None, 0).unwrap();
    assert_eq!(driver.cleanup_session("S").len(), 1);
    assert_eq!(driver.subscriptions.len(), 1);
    assert_eq!(driver.subscriptions.entry(0).rpc.session_id, "T");
}

#[test]
fn ids_increase() {
    let mut r = RequestRegistry::new(41);
    let a = r.allocate_id();
    let b = r.allocate_id();
    assert_eq!(a, 42);
    assert_eq!(b, 43);
    assert!(a < b);
    let mut full = RequestRegistry::new(u64::MAX);
    assert!(!full.can_allocate());
    assert!(full.get_and_consume(1).is_none());
}

#[test]
fn single_shot_removal() {
    let mut state = broker_with(vec![("device.id", rule("DeviceInfo.1.id"))], 0);
    let req = forwarded_request(state.handle_brokerage(rpc("s1", "device.id", "[{}]", ListenKind::Call)));
    let id = req.rpc.call_id;
    assert!(state.registry.get_and_consume(id).is_some());
    assert!(state.registry.get_and_consume(id).is_none());
    assert!(state.registry.get_and_consume(999).is_none());
}

#[test]
fn listen_stays_until_removed() {
    let mut state = broker_with(vec![("events.onFoo", rule("Foo.1.changed"))], 0);
    let req = forwarded_request(state.handle_brokerage(rpc("s1", "events.onFoo", "[{}]", ListenKind::Listen)));
    let id = req.rpc.call_id;
    assert!(state.registry.get_and_consume(id).is_some());
    assert!(state.registry.get_and_consume(id).is_some());
    state.registry.mark_subscription_processed(id);
    assert!(state.registry.get_and_consume(id).unwrap().subscription_processed);
    assert!(state.registry.remove(id).is_some());
    assert!(state.registry.get_and_consume(id).is_none());
}

#[test]
fn subscription_idempotence() {
    let mut state = broker_with(vec![("events.onFoo", rule("Foo.1.changed"))], 0);
    let mut driver = ThunderBroker::new();
    let first = forwarded_request(state.handle_brokerage(rpc("s1", "events.onFoo", "[{}]", ListenKind::Listen)));
    let second = forwarded_request(state.handle_brokerage(rpc("s1", "EVENTS.onfoo", "[{}]", ListenKind::Listen)));
    driver.prepare_request(&first, None, 0).unwrap();
    let frames = driver.prepare_request(&second, None, 0).unwrap();
    assert_eq!(driver.subscriptions.len(), 1);
    assert_eq!(driver.subscriptions.entry(0).rpc.call_id, second.rpc.call_id);
    assert_eq!(
        frames,
        vec![
            "{\"jsonrpc\":\"2.0\",\"id\":1,\"method\":\"Foo.1.unregister\",\"params\":{\"event\":\"changed\",\"id\":\"1\"}}".to_string(),
            "{\"jsonrpc\":\"2.0\",\"id\":2,\"method\":\"Foo.1.register\",\"params\":{\"event\":\"changed\",\"id\":\"2\"}}".to_string(),
        ]
    );
}

#[test]
fn unlisten_unregisters_and_is_acknowledged() {
    let mut state = broker_with(vec![("events.onFoo", rule("Foo.1.changed"))], 0);
    let mut driver = ThunderBroker::new();
    let listen = forwarded_request(state.handle_brokerage(rpc("s1", "events.onFoo", "[{}]", ListenKind::Listen)));
    driver.prepare_request(&listen, None, 0).unwrap();
    match state.handle_brokerage(rpc("s1", "events.onFoo", "[{}]", ListenKind::Unlisten)) {
        Dispatch::Forward { request, acknowledgement, .. } => {
            let ack = acknowledgement.expect("an unlisten is acknowledged");
            assert_eq!(ack.data.id, Some(request.rpc.call_id));
            assert_eq!(ack.data.error, None);
            match BrokerOutputForwarder::forward(&mut state.registry, ack) {
                Forwarded::Deliver { response, .. } => {
                    assert_eq!(response.id, Some(1000));
                    assert_eq!(
                        response.result,
                        Some("{\"listening\":false,\"event\":\"events.onFoo\"}".to_string())
                    );
                }
                other => panic!("unexpected {:?}", other),
            }
            let frames = driver.prepare_request(&request, None, 0).unwrap();
            assert_eq!(
                frames,
                vec!["{\"jsonrpc\":\"2.0\",\"id\":1,\"method\":\"Foo.1.unregister\",\"params\":{\"event\":\"changed\",\"id\":\"1\"}}".to_string()]
            );
            assert!(driver.prepare_request(&request, None, 0).unwrap().is_empty());
        }
        other => panic!("unexpected {:?}", other),
    }
    assert_eq!(driver.subscriptions.len(), 0);
}

#[test]
fn event_routing_by_leading_number() {
    let mut state = broker_with(vec![("events.onFoo", rule("Foo.1.fooChanged"))], 41);
    let req = forwarded_request(state.handle_brokerage(rpc("s1", "events.onFoo", "[{}]", ListenKind::Listen)));
    assert_eq!(req.rpc.call_id, 42);
    let out = BrokerOutput::new(response(None, Some("42.fooChanged"), Some("{\"a\":1}")));
    assert_eq!(out.get_event(), Some(42));
    match BrokerOutputForwarder::forward(&mut state.registry, out) {
        Forwarded::Deliver { request, response, is_event, .. } => {
            assert!(is_event);
            assert_eq!(request.rpc.request_id, "req-events.onFoo");
            assert_eq!(response.method, Some("events.onFoo".to_string()));
        }
        other => panic!("unexpected {:?}", other),
    }
}

#[test]
fn event_with_handler_goes_in_process() {
    let mut r = rule("Foo.1.changed");
    r.event_handler = Some("device.refresh".to_string());
    let mut state = broker_with(vec![("events.onFoo", r)], 0);
    let req = forwarded_request(state.handle_brokerage(rpc("s1", "events.onFoo", "[{}]", ListenKind::Listen)));
    let out = BrokerOutput::new(response(None, Some(&format!("{}.changed", req.rpc.call_id)), Some("1")));
    match BrokerOutputForwarder::forward(&mut state.registry, out) {
        Forwarded::HandleEvent { handler, .. } => assert_eq!(handler, "device.refresh"),
        other => panic!("unexpected {:?}", other),
    }
}

#[test]
fn outputs_without_request_are_dropped() {
    let mut state = broker_with(vec![], 0);
    let out = BrokerOutput::new(response(Some(5), None, Some("1")));
    assert!(matches!(BrokerOutputForwarder::forward(&mut state.registry, out), Forwarded::Dropped));
    let out = BrokerOutput::new(response(None, None, Some("1")));
    assert!(matches!(BrokerOutputForwarder::forward(&mut state.registry, out), Forwarded::Dropped));
}

#[test]
fn response_without_result_or_error_becomes_null() {
    let mut state = broker_with(vec![("device.id", rule("DeviceInfo.1.id"))], 0);
    let req = forwarded_request(state.handle_brokerage(rpc("s1", "device.id", "[{}]", ListenKind::Call)));
    let out = BrokerOutput::new(response(Some(req.rpc.call_id), None, None));
    match BrokerOutputForwarder::forward(&mut state.registry, out) {
        Forwarded::Deliver { response, .. } => assert_eq!(response.result, Some("null".to_string())),
        other => panic!("unexpected {:?}", other),
    }
}

#[test]
fn composite_round_trip() {
    let mut state = broker_with(vec![("device.x", rule("X.1.get"))], 0);
    let params = "[{\"ctx\":{}},{\"response\":\"if .result then 1 else 0 end\",\"k\":2}]";
    let req = forwarded_request(state.handle_brokerage(rpc("s1", "device.x", params, ListenKind::Call)));
    let mut driver = ThunderBroker::new();
    let frames = driver.prepare_request(&req, None, 1_000).unwrap();
    assert_eq!(
        frames,
        vec!["{\"jsonrpc\":\"2.0\",\"id\":1,\"method\":\"X.1.get\",\"params\":{\"k\":2,\"response\":\"if .result then 1 else 0 end\"}}".to_string()]
    );
    driver.composite.sweep(9_000);
    assert_eq!(driver.composite.len(), 1);
    let stored = driver.composite.take(1).unwrap();
    assert_eq!(stored, "\"if .result then 1 else 0 end\"");

    let wrapped = format!("{{\"response\":{}}}", stored);
    let backend = JsonRpcApiResponse {
        id: Some(1),
        method: None,
        result: Some("true".to_string()),
        error: None,
        params: None,
    };
    let out = update_response(&backend, Some(wrapped.clone()));
    assert_eq!(out.params, Some(wrapped));
    assert_eq!(get_composite_filter(&out), Some("if .result then 1 else 0 end".to_string()));
    match BrokerOutputForwarder::forward(&mut state.registry, BrokerOutput::new(out)) {
        Forwarded::Deliver { filter, .. } => {
            assert_eq!(filter, Some("if .result then 1 else 0 end".to_string()))
        }
        other => panic!("unexpected {:?}", other),
    }
}

#[test]
fn composite_entries_expire_after_eight_seconds() {
    let mut table = CompositeTable::new();
    table.register(3, "{}".to_string(), 1_000);
    table.sweep(9_000);
    assert_eq!(table.len(), 1);
    table.sweep(9_001);
    assert_eq!(table.len(), 0);
    assert!(table.take(3).is_none());
}

#[test]
fn reconnect_replays_every_subscription() {
    let mut state = broker_with(
        vec![("events.onA", rule("A.1.a")), ("events.onB", rule("B.1.b"))],
        10,
    );
    let mut driver = ThunderBroker::new();
    let a = forwarded_request(state.handle_brokerage(rpc("S", "events.onA", "[{}]", ListenKind::Listen)));
    let b = forwarded_request(state.handle_brokerage(rpc("T", "events.onB", "[{}]", ListenKind::Listen)));
    driver.prepare_request(&a, None, 0).unwrap();
    driver.prepare_request(&b, None, 0).unwrap();
    assert_eq!(
        driver.replay_subscriptions(),
        vec![
            "{\"jsonrpc\":\"2.0\",\"id\":11,\"method\":\"A.1.register\",\"params\":{\"event\":\"a\",\"id\":\"11\"}}".to_string(),
            "{\"jsonrpc\":\"2.0\",\"id\":12,\"method\":\"B.1.register\",\"params\":{\"event\":\"b\",\"id\":\"12\"}}".to_string(),
        ]
    );
}

#[test]
fn activation_keeps_arrival_order() {
    let mut state = broker_with(vec![("xyz.a", rule("Xyz.a")), ("xyz.b", rule("Xyz.b"))], 0);
    let a = forwarded_request(state.handle_brokerage(rpc("s1", "xyz.a", "[{}]", ListenKind::Call)));
    let b = forwarded_request(state.handle_brokerage(rpc("s1", "xyz.b", "[{}]", ListenKind::Call)));
    let mut driver = ThunderBroker::new();
    assert_eq!(driver.handle_request(&a, None, 100, 0).unwrap().len(), 1);
    assert_eq!(driver.handle_request(&b, None, 101, 0).unwrap().len(), 1);
    let released = driver.on_state_change(&"Xyz".to_string(), PluginState::Activated);
    let ids: Vec<u64> = released.iter().map(|r| r.rpc.call_id).collect();
    assert_eq!(ids, vec![a.rpc.call_id, b.rpc.call_id]);
    assert!(driver.on_state_change(&"Xyz".to_string(), PluginState::Activated).is_empty());
}

#[test]
fn deactivated_plugin_gets_activation_request() {
    let mut state = broker_with(vec![("xyz.a", rule("Xyz.a"))], 0);
    let a = forwarded_request(state.handle_brokerage(rpc("s1", "xyz.a", "[{}]", ListenKind::Call)));
    let mut driver = ThunderBroker::new();
    driver.on_state_change(&"Xyz".to_string(), PluginState::Deactivated);
    assert_eq!(
        driver.handle_request(&a, None, 77, 0).unwrap(),
        vec!["{\"jsonrpc\":\"2.0\",\"id\":77,\"method\":\"Controller.1.activate\",\"params\":{\"callsign\":\"Xyz\"}}".to_string()]
    );
}

#[test]
fn missing_and_activating_plugins_fail() {
    let mut state = broker_with(vec![("xyz.a", rule("Xyz.a"))], 0);
    let a = forwarded_request(state.handle_brokerage(rpc("s1", "xyz.a", "[{}]", ListenKind::Call)));
    let mut driver = ThunderBroker::new();
    driver.on_state_change(&"Xyz".to_string(), PluginState::Missing);
    assert_eq!(driver.handle_request(&a, None, 1, 0), Err(BrokerError::ServiceError));
    driver.on_state_change(&"Xyz".to_string(), PluginState::Activating);
    assert_eq!(driver.handle_request(&a, None, 1, 0), Err(BrokerError::ServiceNotReady));
    let released = driver.on_state_change(&"Xyz".to_string(), PluginState::Activated);
    assert_eq!(released.len(), 1);
}

#[test]
fn bad_parameters_are_a_parse_error() {
    let mut state = broker_with(vec![("device.id", rule("DeviceInfo.1.id"))], 0);
    let req = forwarded_request(state.handle_brokerage(rpc("s1", "device.id", "not json", ListenKind::Call)));
    let mut driver = ThunderBroker::new();
    assert_eq!(driver.prepare_request(&req, None, 0), Err(BrokerError::ParseError));
    assert_eq!(request_payload("{\"a\":1}"), Err(BrokerError::ParseError));
}

#[test]
fn filtered_payload_replaces_the_parameters() {
    let mut state = broker_with(vec![("device.id", rule("DeviceInfo.1.id"))], 0);
    let req = forwarded_request(state.handle_brokerage(rpc("s1", "device.id", "[{},{\"a\":1}]", ListenKind::Call)));
    let mut driver = ThunderBroker::new();
    let frames = driver.prepare_request(&req, Some(Some("{\"b\":2}".to_string())), 0).unwrap();
    assert_eq!(frames, vec!["{\"jsonrpc\":\"2.0\",\"id\":1,\"method\":\"DeviceInfo.1.id\",\"params\":{\"b\":2}}".to_string()]);
    let frames = driver.prepare_request(&req, Some(None), 0).unwrap();
    assert_eq!(frames, vec!["{\"jsonrpc\":\"2.0\",\"id\":1,\"method\":\"DeviceInfo.1.id\"}".to_string()]);
}

#[test]
fn error_codes() {
    assert_eq!(BrokerError::InvalidInput.code(), -32602);
    assert_eq!(BrokerError::ParseError.code(), -32700);
    assert_eq!(BrokerError::ServiceError.code(), -32603);
    assert_eq!(BrokerError::SendFailure.code(), -32603);
    assert_ne!(BrokerError::ServiceNotReady.code(), BrokerError::NotAvailable.code());
}

#[test]
fn payload_is_the_last_parameter() {
    assert_eq!(request_payload("[{\"ctx\":{}}]"), Ok(None));
    assert_eq!(request_payload("[]"), Ok(None));
    assert_eq!(request_payload("[1, 2, {\"a\": 1}]"), Ok(Some("{\"a\":1}".to_string())));
    assert_eq!(
        composite_response("[{},{\"response\":{\"x\":1}}]"),
        Some("{\"x\":1}".to_string())
    );
    assert_eq!(composite_response("[{},{\"k\":1}]"), None);
    assert_eq!(composite_response("oops"), None);
}

#[test]
fn rules_match_without_case_first_wins() {
    let mut second = rule("Second.1.x");
    second.endpoint = Some("other".to_string());
    let state = broker_with(vec![("Device.Name", rule("First.1.x")), ("device.name", second)], 0);
    let got = state.get_rule(&rpc("s", "DEVICE.NAME", "[]", ListenKind::Call)).unwrap();
    assert_eq!(got.alias, "First.1.x");
    assert!(state.get_rule(&rpc("s", "device.names", "[]", ListenKind::Call)).is_none());
}

#[test]
fn dispatch_static_provided_and_unrouted() {
    let mut elsewhere = rule("Other.1.x");
    elsewhere.endpoint = Some("http".to_string());
    let mut state = broker_with(
        vec![
            ("a.static", rule("static")),
            ("a.provided", rule("Provided")),
            ("a.elsewhere", elsewhere),
        ],
        0,
    );
    match state.handle_brokerage(rpc("s", "a.static", "[]", ListenKind::Call)) {
        Dispatch::Static { call_id, output } => {
            assert_eq!(call_id, 1);
            assert_eq!(output.data.id, Some(1));
            assert_eq!(output.data.result, Some("\"\"".to_string()));
            assert_eq!(output.data.error, None);
            assert!(state.registry.contains(1));
        }
        other => panic!("unexpected {:?}", other),
    }
    assert!(matches!(state.handle_brokerage(rpc("s", "a.provided", "[]", ListenKind::Call)), Dispatch::Provided));
    assert!(matches!(state.handle_brokerage(rpc("s", "a.elsewhere", "[]", ListenKind::Call)), Dispatch::NotHandled));
    assert!(matches!(state.handle_brokerage(rpc("s", "a.unknown", "[]", ListenKind::Call)), Dispatch::NotHandled));
    assert_eq!(state.registry.last_id(), 1);
    state.add_endpoint("http".to_string());
    match state.handle_brokerage(rpc("s", "a.elsewhere", "[]", ListenKind::Call)) {
        Dispatch::Forward { endpoint, acknowledgement, .. } => {
            assert_eq!(endpoint, "http");
            assert!(acknowledgement.is_none());
        }
        other => panic!("unexpected {:?}", other),
    }
}

#[test]
fn quoting_escapes_method_names() {
    let mut state = broker_with(vec![("odd", rule("Odd.1.a\"b"))], 0);
    let req = forwarded_request(state.handle_brokerage(rpc("s", "odd", "[]", ListenKind::Call)));
    let mut driver = ThunderBroker::new();
    assert_eq!(
        driver.prepare_request(&req, None, 0).unwrap(),
        vec!["{\"jsonrpc\":\"2.0\",\"id\":1,\"method\":\"Odd.1.a\\\"b\"}".to_string()]
    );
}

#[test]
fn state_change_subscription_frame() {
    assert_eq!(
        ThunderBroker::state_change_frame(3),
        "{\"jsonrpc\":\"2.0\",\"id\":3,\"method\":\"Controller.1.register\",\"params\":{\"event\":\"statechange\",\"id\":\"3\"}}"
    );
}

#[test]
fn test_thunderbroker_get_callsign_and_method_from_alias() {
    let (callsign, method) = ThunderBroker::get_callsign_and_method_from_alias("plugin.method");
    assert_eq!(callsign, "plugin");
    assert_eq!(method, "method");
    let (callsign, method) = ThunderBroker::get_callsign_and_method_from_alias("plugin2.");
    assert_eq!(callsign, "plugin2");
    assert_eq!(method, "");
    let (callsign, method) = ThunderBroker::get_callsign_and_method_from_alias("nodot");
    assert_eq!(callsign, "");
    assert_eq!(method, "nodot");
}

#[test]
fn test_get_event() {
    let output = BrokerOutput::new(response(None, Some("20.events"), None));
    assert_eq!(output.get_event(), Some(20));
    let output = BrokerOutput::new(response(None, Some("events.20"), None));
    assert_eq!(output.get_event(), None);
}

#[test]
fn test_result() {
    let output = BrokerOutput::new(response(Some(1), None, None));
    assert!(!output.is_result());
    let output = BrokerOutput::new(response(Some(1), None, Some("null")));
    assert!(output.is_result());
}

#[test]
fn error_string_of_outputs() {
    let output = BrokerOutput::new(response(Some(1), None, Some("\"x\"")));
    assert!(output.is_success());
    assert!(!output.is_error());
    assert_eq!(output.get_error_string(), "unknown");
}

#[test]
fn null_payload_leaves_params_out() {
    let mut state = broker_with(vec![("device.id", rule("DeviceInfo.1.id"))], 0);
    let req = forwarded_request(state.handle_brokerage(rpc("s1", "device.id", "[{}, null]", ListenKind::Call)));
    let mut driver = ThunderBroker::new();
    let expected = vec!["{\"jsonrpc\":\"2.0\",\"id\":1,\"method\":\"DeviceInfo.1.id\"}".to_string()];
    assert_eq!(driver.prepare_request(&req, None, 0).unwrap(), expected);
    assert_eq!(driver.prepare_request(&req, Some(Some(" null ".to_string())), 0).unwrap(), expected);
    assert_eq!(request_payload("[{}, null]"), Ok(None));
}

#[test]
fn handled_event_keeps_the_call_id() {
    let req = BrokerRequest::new(rpc("s1", "events.onFoo", "[{}]", ListenKind::Listen), rule("Foo.1.changed"));
    let ev = response(None, Some("7.changed"), Some("1"));
    let r = handled_event_response(&req, &ev, Some("2".to_string()));
    assert_eq!(r.id, Some(1000));
    assert_eq!(r.method, Some("events.onFoo".to_string()));
    assert_eq!(r.result, Some("2".to_string()));
    assert_eq!(handled_event_response(&req, &ev, None).result, Some("1".to_string()));
}

#[test]
fn controller_frames_report_plugin_states() {
    let change = JsonRpcApiResponse {
        id: None,
        method: Some("5.statechange".to_string()),
        result: None,
        error: None,
        params: Some("{\"callsign\":\"Xyz\",\"state\":\"activated\"}".to_string()),
    };
    assert_eq!(
        ThunderBroker::plugin_report(&change, "5.statechange", None),
        Some(Some(("Xyz".to_string(), PluginState::Activated)))
    );
    let answer = response(Some(9), None, Some("[{\"state\":\"deactivated\"}]"));
    assert_eq!(
        ThunderBroker::plugin_report(&answer, "5.statechange", Some("Xyz".to_string())),
        Some(Some(("Xyz".to_string(), PluginState::Deactivated)))
    );
    let mut failed = response(Some(9), None, None);
    failed.error = Some("{\"code\":2}".to_string());
    assert_eq!(
        ThunderBroker::plugin_report(&failed, "5.statechange", Some("Gone".to_string())),
        Some(Some(("Gone".to_string(), PluginState::Missing)))
    );
    let ack = response(Some(9), None, Some("null"));
    assert_eq!(ThunderBroker::plugin_report(&ack, "5.statechange", Some("Xyz".to_string())), Some(None));
    assert_eq!(ThunderBroker::plugin_report(&ack, "5.statechange", None), None);
}

#[test]
fn test_thunderbroker_update_response() {
    let data = JsonRpcApiResponse {
        id: Some(1),
        method: None,
        result: Some("{\"key\":\"value\"}".to_string()),
        error: None,
        params: Some("{\"param_key\":\"param_value\"}".to_string()),
    };
    let updated = update_response(&data, None);
    assert_eq!(updated.result, Some("{\"param_key\":\"param_value\"}".to_string()));
    let plain = JsonRpcApiResponse { params: None, ..data };
    assert_eq!(update_response(&plain, None).result, Some("{\"key\":\"value\"}".to_string()));
}

#[test]
fn filter_output_becomes_the_result() {
    let resp = response(Some(3), None, Some("{\"success\":true,\"stbVersion\":\"SCXI11BEI_VBN_24Q3\"}"));
    let out = apply_response(&resp, Ok("\"SCXI11BEI\"".to_string()));
    assert_eq!(out.result, Some("\"SCXI11BEI\"".to_string()));
    assert_eq!(out.error, None);
    assert_eq!(out.id, Some(3));
}

#[test]
fn filter_output_with_error_becomes_the_error() {
    let resp = response(Some(3), None, Some("1"));
    let out = apply_response(&resp, Ok("{\"error\":{\"code\":22,\"message\":\"test error code 22\"}}".to_string()));
    assert_eq!(out.result, None);
    assert_eq!(out.error, Some("{\"code\":22,\"message\":\"test error code 22\"}".to_string()));
    let failed = apply_response(&resp, Err(BrokerError::ParseError));
    assert_eq!(failed.result, None);
    assert_eq!(failed.error, Some("{\"code\":-32700,\"message\":\"ParseError\"}".to_string()));
}

#[test]
fn event_and_match_filters() {
    let mut ev = response(None, Some("events.onFoo"), None);
    ev.params = Some("{\"v\":1}".to_string());
    assert_eq!(apply_event_filter(&ev, Ok("2".to_string())).params, Some("2".to_string()));
    assert_eq!(apply_event_filter(&ev, Err(BrokerError::ParseError)).params, Some("{\"v\":1}".to_string()));
    assert!(!match_filter_passes(&Ok("false".to_string())));
    assert!(!match_filter_passes(&Ok(" null ".to_string())));
    assert!(match_filter_passes(&Ok("true".to_string())));
    assert!(match_filter_passes(&Err(BrokerError::ParseError)));
}

#[test]
fn plugin_states_by_name() {
    assert_eq!(PluginState::from_name("activated"), Some(PluginState::Activated));
    assert_eq!(PluginState::from_name("activation"), Some(PluginState::Activating));
    assert_eq!(PluginState::from_name("deactivation"), Some(PluginState::Deactivated));
    assert_eq!(PluginState::from_name("unavailable"), Some(PluginState::Missing));
    assert_eq!(PluginState::from_name("Activated"), None);
}
