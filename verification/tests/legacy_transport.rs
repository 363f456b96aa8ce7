//! Tests for the legacy transport: the endpoint announcement, the
//! always-202 submit whose results travel over the push stream, and the
//! channel registry's best-effort delivery.

use rust_mcp::dispatch::{
    BodyShape, IdField, IncomingMessage, InitSettings, TransportState,
};
use rust_mcp::legacy::{legacy_open, legacy_submit, legacy_submit_finish, LegacySubmitStep};
use rust_mcp::protocol::{RequestId, RpcPayload};
use rust_mcp::security::{AuthConfig, SecurityConfig};
use rust_mcp::streamable::RequestHeaders;

fn legacy_state() -> TransportState {
    TransportState::new(AuthConfig::disabled(), SecurityConfig { allowed_origins: None })
}

fn bare_headers() -> RequestHeaders {
    RequestHeaders {
        session_id: None,
        protocol_version: None,
        authorization: None,
        origin: None,
        last_event_id: None,
    }
}

fn legacy_settings() -> InitSettings {
    InitSettings {
        protocol_default: "2025-03-26".to_string(),
        server_name: "odoo-mcp".to_string(),
        instructions: String::new(),
        instance_names: vec![],
    }
}

#[test]
fn legacy_stream_announces_the_message_endpoint() {
    let mut state = legacy_state();
    let plan = legacy_open(&mut state, &bare_headers()).unwrap();
    assert_eq!(
        plan.endpoint_path,
        format!("/messages?sessionId={}", plan.session_id)
    );
    // the channel is live: a published message reaches a subscriber
    let mut rx = plan.sender.subscribe();
    assert!(state.channels.publish(&plan.session_id, "hello".to_string()));
    assert_eq!(rx.try_recv().unwrap(), "hello");
}

#[test]
fn legacy_submit_publishes_the_response_on_the_stream() {
    let mut state = legacy_state();
    let plan = legacy_open(&mut state, &bare_headers()).unwrap();
    let sid = plan.session_id.clone();

    let body = BodyShape::Valid(IncomingMessage {
        method: "initialize".to_string(),
        id: IdField::Num(1),
        params: None,
        requested_protocol_version: Some("2025-03-26".to_string()),
    });
    match legacy_submit(&mut state, &bare_headers(), Some(sid.clone()), body, legacy_settings()) {
        LegacySubmitStep::Publish { session_id, done } => {
            assert_eq!(session_id, sid);
            let resp = done.response.unwrap();
            assert!(matches!(resp.id, RequestId::Num(1)));
            assert!(matches!(resp.outcome, Ok(RpcPayload::Init(_))));
        }
        _ => panic!("a legacy initialize publishes its response"),
    }
}

#[test]
fn legacy_submit_routes_requests_to_the_handler() {
    let mut state = legacy_state();
    let plan = legacy_open(&mut state, &bare_headers()).unwrap();
    let sid = plan.session_id.clone();

    let body = BodyShape::Valid(IncomingMessage {
        method: "tools/list".to_string(),
        id: IdField::Num(4),
        params: None,
        requested_protocol_version: None,
    });
    match legacy_submit(&mut state, &bare_headers(), Some(sid.clone()), body, legacy_settings()) {
        LegacySubmitStep::CallHandler { session_id, method, id, .. } => {
            assert_eq!(session_id.as_deref(), Some(sid.as_str()));
            assert_eq!(method, "tools/list");
            let pair = legacy_submit_finish(session_id, id, Ok("{}".to_string()));
            let (publish_to, resp) = pair.expect("a request with a session publishes");
            assert_eq!(publish_to, sid);
            assert!(matches!(resp.outcome, Ok(RpcPayload::Raw(_))));
        }
        _ => panic!("an unknown method goes to the handler"),
    }
}

#[test]
fn legacy_submit_without_session_still_accepts() {
    let pair = legacy_submit_finish(None, Some(RequestId::Num(1)), Ok("{}".to_string()));
    assert!(pair.is_none());

    let mut state = legacy_state();
    match legacy_submit(&mut state, &bare_headers(), None, BodyShape::NotObject, legacy_settings())
    {
        LegacySubmitStep::BadRequest => {}
        _ => panic!("a malformed legacy body answers 400"),
    }
}

#[test]
fn legacy_endpoints_check_the_version_header() {
    let mut state = legacy_state();
    let headers = RequestHeaders {
        session_id: None,
        protocol_version: Some("1999-01-01".to_string()),
        authorization: None,
        origin: None,
        last_event_id: None,
    };
    assert!(legacy_open(&mut state, &headers).is_err());
    match legacy_submit(&mut state, &headers, None, BodyShape::NotObject, legacy_settings()) {
        LegacySubmitStep::Reject(_) => {}
        _ => panic!("an unsupported version header is refused before dispatch"),
    }
}

#[test]
fn slow_subscribers_lose_messages_without_blocking_the_publisher() {
    let mut state = legacy_state();
    let plan = legacy_open(&mut state, &bare_headers()).unwrap();
    let mut rx = plan.sender.subscribe();
    // push well past the channel's bound; publishing never blocks
    for i in 0..600u32 {
        assert!(state.channels.publish(&plan.session_id, format!("m{}", i)));
    }
    // the subscriber lagged: the first receive reports the gap
    assert!(rx.try_recv().is_err());
}

#[test]
fn publishing_to_an_unknown_channel_reports_it() {
    let state = legacy_state();
    assert!(!state.channels.publish("missing", "x".to_string()));
}
