//! Tests for the streamable transport: the security pipeline, session
//! state, and the full submit/handshake/terminate flows.

use rust_mcp::dispatch::{
    dispatch_finish, BodyShape, DispatchStep, IdField, IncomingMessage, InitSettings,
    TransportState,
};
use rust_mcp::protocol::{
    current_protocol_version, JsonRpcResponse, RequestId, RpcPayload,
    CODE_SERVER_NOT_INITIALIZED,
};
use rust_mcp::security::{
    validate_auth, validate_origin, validate_protocol_version, AuthConfig, AuthError,
    SecurityConfig,
};
use rust_mcp::session::{SessionState, StoredEvent};
use rust_mcp::streamable::{
    open_stream, submit, terminate, RequestHeaders, SubmitStep, TerminateOutcome, TransportError,
};

#[test]
fn test_origin_validation_disabled() {
    let security = SecurityConfig {
        allowed_origins: None,
    };
    assert!(validate_origin(None, &security).is_ok());
}

#[test]
fn test_origin_validation_localhost_only() {
    let security = SecurityConfig {
        allowed_origins: Some(vec![]),
    };

    // No origin - should pass
    assert!(validate_origin(None, &security).is_ok());

    // Localhost - should pass
    assert!(validate_origin(Some("http://localhost:3000"), &security).is_ok());

    // 127.0.0.1 - should pass
    assert!(validate_origin(Some("http://127.0.0.1:8080"), &security).is_ok());

    // External origin - should fail
    assert!(validate_origin(Some("http://evil.com"), &security).is_err());
}

#[test]
fn test_origin_validation_with_allowed_list() {
    let security = SecurityConfig {
        allowed_origins: Some(vec!["https://example.com".to_string()]),
    };

    // Allowed origin - should pass
    assert!(validate_origin(Some("https://example.com"), &security).is_ok());

    // Localhost - should always pass
    assert!(validate_origin(Some("http://localhost:3000"), &security).is_ok());

    // Other origin - should fail
    assert!(validate_origin(Some("https://other.com"), &security).is_err());
}

#[test]
fn test_protocol_version_validation() {
    // No header - should pass (backwards compatibility)
    assert!(validate_protocol_version(None, None).is_ok());

    // Known version - should pass
    assert!(validate_protocol_version(Some("2025-03-26"), None).is_ok());

    // Current version - should pass
    assert!(validate_protocol_version(Some(current_protocol_version()), None).is_ok());
}

#[test]
fn test_session_state_event_id() {
    let mut state = SessionState::new("2025-03-26".to_string());
    let id1 = state.next_event_id("session123");
    let id2 = state.next_event_id("session123");

    assert!(id1.starts_with("session123:"));
    assert!(id2.starts_with("session123:"));
    assert_ne!(id1, id2);
}

#[test]
fn test_session_state_event_buffer() {
    let mut state = SessionState::new("2025-03-26".to_string());

    // Store some events
    state.store_event(StoredEvent {
        id: "s:0".to_string(),
        data: "first".to_string(),
    });
    state.store_event(StoredEvent {
        id: "s:1".to_string(),
        data: "second".to_string(),
    });
    state.store_event(StoredEvent {
        id: "s:2".to_string(),
        data: "third".to_string(),
    });

    // Get events after s:0
    let events = state.get_events_after("s:0");
    assert_eq!(events.len(), 2);
    assert_eq!(events[0].id, "s:1");
    assert_eq!(events[1].id, "s:2");

    // Get events after non-existent ID
    let events = state.get_events_after("s:999");
    assert!(events.is_empty());
}

#[test]
fn event_ring_keeps_the_most_recent_hundred() {
    let mut state = SessionState::new("2025-03-26".to_string());
    for i in 0..101 {
        state.store_event(StoredEvent {
            id: format!("s:{}", i),
            data: String::new(),
        });
    }
    // the oldest event was evicted; the ring holds s:1 .. s:100
    assert_eq!(state.event_buffer.len(), 100);
    assert!(state.get_events_after("s:0").is_empty());
    let after = state.get_events_after("s:1");
    assert_eq!(after.len(), 99);
    assert_eq!(after[0].id, "s:2");
    assert_eq!(after[98].id, "s:100");
}

#[test]
fn event_ids_carry_increasing_counters() {
    let mut state = SessionState::new("2025-03-26".to_string());
    assert_eq!(state.next_event_id("abc123"), "abc123:0");
    assert_eq!(state.next_event_id("abc123"), "abc123:1");
    assert_eq!(state.next_event_id("abc123"), "abc123:2");
}

#[test]
fn auth_disabled_passes_even_bogus_tokens() {
    let auth = AuthConfig::disabled();
    assert!(validate_auth(Some("Bearer bogus"), &auth).is_ok());
    assert!(validate_auth(None, &auth).is_ok());
}

#[test]
fn auth_enabled_checks_the_bearer_token() {
    let auth = AuthConfig {
        bearer_token: Some("secret".to_string()),
        enabled: true,
    };
    assert!(validate_auth(Some("Bearer secret"), &auth).is_ok());

    let wrong = validate_auth(Some("Bearer wrong"), &auth).unwrap_err();
    assert!(matches!(wrong, AuthError::WrongToken));
    assert_eq!(wrong.status(), 401);
    assert_eq!(wrong.error_code(), "invalid_token");

    let missing = validate_auth(None, &auth).unwrap_err();
    assert!(matches!(missing, AuthError::MissingHeader));
    assert_eq!(missing.status(), 401);
    assert_eq!(missing.error_code(), "invalid_request");

    let scheme = validate_auth(Some("Basic secret"), &auth).unwrap_err();
    assert!(matches!(scheme, AuthError::NotBearer));
    assert_eq!(scheme.error_code(), "invalid_request");
}

#[test]
fn auth_enabled_without_token_fails_closed() {
    let auth = AuthConfig {
        bearer_token: None,
        enabled: true,
    };
    let err = validate_auth(Some("Bearer anything"), &auth).unwrap_err();
    assert!(matches!(err, AuthError::NotConfigured));
    assert_eq!(err.status(), 500);
    assert_eq!(err.error_code(), "server_error");
}

fn open_state() -> TransportState {
    TransportState::new(AuthConfig::disabled(), SecurityConfig { allowed_origins: None })
}

fn plain_headers() -> RequestHeaders {
    RequestHeaders {
        session_id: None,
        protocol_version: None,
        authorization: None,
        origin: None,
        last_event_id: None,
    }
}

fn session_headers(sid: &str) -> RequestHeaders {
    RequestHeaders {
        session_id: Some(sid.to_string()),
        protocol_version: None,
        authorization: None,
        origin: None,
        last_event_id: None,
    }
}

fn init_settings() -> InitSettings {
    InitSettings {
        protocol_default: "2025-03-26".to_string(),
        server_name: "odoo-mcp".to_string(),
        instructions: "call tools".to_string(),
        instance_names: vec!["default".to_string()],
    }
}

fn initialize_body(id: i64, version: &str) -> BodyShape {
    BodyShape::Valid(IncomingMessage {
        method: "initialize".to_string(),
        id: IdField::Num(id),
        params: None,
        requested_protocol_version: Some(version.to_string()),
    })
}

#[test]
fn end_to_end_initialize_handshake_and_request() {
    let mut state = open_state();

    // initialize: 200 with capability result and a session id to echo
    let step = submit(&mut state, &plain_headers(), initialize_body(1, "2025-03-26"),
        init_settings());
    let done = match step {
        SubmitStep::Respond(d) => d,
        _ => panic!("initialize should answer directly"),
    };
    assert_eq!(done.status, 200);
    let sid = done.new_session.clone().expect("initialize returns a session id");
    assert_eq!(done.protocol_version.as_deref(), Some("2025-03-26"));
    let resp = done.response.expect("initialize carries a body");
    assert!(matches!(resp.id, RequestId::Num(1)));
    match resp.outcome {
        Ok(RpcPayload::Init(ir)) => {
            assert_eq!(ir.protocol_version, "2025-03-26");
            assert_eq!(ir.server_name, "odoo-mcp");
            assert_eq!(ir.instance_names, vec!["default".to_string()]);
        }
        _ => panic!("initialize result expected"),
    }

    // a request before `initialized` is rejected in-protocol
    let early = BodyShape::Valid(IncomingMessage {
        method: "tools/list".to_string(),
        id: IdField::Num(2),
        params: None,
        requested_protocol_version: None,
    });
    match submit(&mut state, &session_headers(&sid), early, init_settings()) {
        SubmitStep::Respond(d) => {
            assert_eq!(d.status, 200);
            let resp = d.response.expect("the guard answers with an error envelope");
            match resp.outcome {
                Err(e) => {
                    assert_eq!(e.code, CODE_SERVER_NOT_INITIALIZED);
                    assert_eq!(e.message, "Server not initialized");
                }
                Ok(_) => panic!("the handshake guard must answer with an error"),
            }
        }
        _ => panic!("the handshake guard answers directly"),
    }

    // initialized: 202 with no body
    let note = BodyShape::Valid(IncomingMessage {
        method: "initialized".to_string(),
        id: IdField::Absent,
        params: None,
        requested_protocol_version: None,
    });
    match submit(&mut state, &session_headers(&sid), note, init_settings()) {
        SubmitStep::Respond(d) => {
            assert_eq!(d.status, 202);
            assert!(d.response.is_none());
        }
        _ => panic!("initialized answers directly"),
    }

    // now a request reaches the handler and completes as a success
    let req = BodyShape::Valid(IncomingMessage {
        method: "tools/list".to_string(),
        id: IdField::Num(2),
        params: Some("{}".to_string()),
        requested_protocol_version: None,
    });
    match submit(&mut state, &session_headers(&sid), req, init_settings()) {
        SubmitStep::CallHandler { method, params, id } => {
            assert_eq!(method, "tools/list");
            assert_eq!(params.as_deref(), Some("{}"));
            let done = dispatch_finish(id, Ok("{\"tools\":[]}".to_string()));
            assert_eq!(done.status, 200);
            let resp = done.response.unwrap();
            assert!(matches!(resp.id, RequestId::Num(2)));
            assert!(matches!(resp.outcome, Ok(RpcPayload::Raw(_))));
        }
        _ => panic!("an initialized session hands requests to the handler"),
    }
}

#[test]
fn unrecognized_requested_version_falls_back_to_default() {
    let mut state = open_state();
    match submit(&mut state, &plain_headers(), initialize_body(1, "1999-01-01"), init_settings())
    {
        SubmitStep::Respond(d) => {
            assert_eq!(d.protocol_version.as_deref(), Some("2025-03-26"));
        }
        _ => panic!("initialize should answer directly"),
    }
}

#[test]
fn handler_failure_becomes_internal_error() {
    let done = dispatch_finish(Some(RequestId::Num(7)), Err("backend down".to_string()));
    assert_eq!(done.status, 200);
    let resp: JsonRpcResponse = done.response.unwrap();
    match resp.outcome {
        Err(e) => {
            assert_eq!(e.code, rust_mcp::protocol::CODE_INTERNAL_ERROR);
            assert_eq!(e.message, "backend down");
        }
        Ok(_) => panic!("a failed handler call wraps as a protocol error"),
    }
}

#[test]
fn notifications_answer_accepted_without_body() {
    let done = dispatch_finish(None, Err("ignored".to_string()));
    assert_eq!(done.status, 202);
    assert!(done.response.is_none());
}

#[test]
fn unknown_session_is_not_found() {
    let mut state = open_state();
    let req = BodyShape::Valid(IncomingMessage {
        method: "tools/list".to_string(),
        id: IdField::Num(1),
        params: None,
        requested_protocol_version: None,
    });
    match submit(&mut state, &session_headers("nope"), req, init_settings()) {
        SubmitStep::Reject(e) => {
            assert!(matches!(e, TransportError::SessionNotFound));
            assert_eq!(e.status(), 404);
        }
        _ => panic!("an unknown session is refused"),
    }
}

#[test]
fn malformed_bodies_are_bad_requests() {
    let mut state = open_state();
    match submit(&mut state, &plain_headers(), BodyShape::NotObject, init_settings()) {
        SubmitStep::Reject(TransportError::Body(e)) => {
            assert_eq!(e.status, 400);
            assert_eq!(e.message, "expected object");
        }
        _ => panic!("a non-object body is refused"),
    }
    match submit(&mut state, &plain_headers(), BodyShape::NoMethod, init_settings()) {
        SubmitStep::Reject(TransportError::Body(e)) => {
            assert_eq!(e.status, 400);
            assert_eq!(e.message, "missing method");
        }
        _ => panic!("a body without a method is refused"),
    }
    let no_id = BodyShape::Valid(IncomingMessage {
        method: "initialize".to_string(),
        id: IdField::Absent,
        params: None,
        requested_protocol_version: None,
    });
    match submit(&mut state, &plain_headers(), no_id, init_settings()) {
        SubmitStep::Reject(TransportError::Body(e)) => {
            assert_eq!(e.status, 400);
            assert_eq!(e.message, "initialize requires id");
        }
        _ => panic!("initialize without an id is refused"),
    }
}

#[test]
fn terminate_is_idempotent() {
    let mut state = open_state();

    // terminating an unknown session reports not found
    match terminate(&mut state, &session_headers("ghost")) {
        Ok(out) => {
            assert!(matches!(out, TerminateOutcome::NotFound));
            assert_eq!(out.status(), 404);
        }
        Err(_) => panic!("the checks pass"),
    }

    // create a session, terminate it twice
    let step = submit(&mut state, &plain_headers(), initialize_body(1, "2025-03-26"),
        init_settings());
    let sid = match step {
        SubmitStep::Respond(d) => d.new_session.unwrap(),
        _ => panic!("initialize should answer directly"),
    };
    match terminate(&mut state, &session_headers(&sid)) {
        Ok(out) => assert_eq!(out.status(), 200),
        Err(_) => panic!("the checks pass"),
    }
    match terminate(&mut state, &session_headers(&sid)) {
        Ok(out) => assert_eq!(out.status(), 404),
        Err(_) => panic!("the checks pass"),
    }

    // without a session header, terminate is a bad request
    match terminate(&mut state, &plain_headers()) {
        Err(e) => {
            assert!(matches!(e, TransportError::MissingSessionHeader));
            assert_eq!(e.status(), 400);
        }
        Ok(_) => panic!("the session header is required"),
    }
}

#[test]
fn fresh_session_ids_are_absent_before_initialize() {
    let mut state = open_state();
    let first = match submit(&mut state, &plain_headers(), initialize_body(1, "2025-03-26"),
        init_settings()) {
        SubmitStep::Respond(d) => d.new_session.unwrap(),
        _ => panic!("initialize should answer directly"),
    };
    let second = match submit(&mut state, &plain_headers(), initialize_body(2, "2025-03-26"),
        init_settings()) {
        SubmitStep::Respond(d) => d.new_session.unwrap(),
        _ => panic!("initialize should answer directly"),
    };
    assert_ne!(first, second);
}

#[test]
fn open_stream_primes_with_a_scoped_event_id() {
    let mut state = open_state();

    // a stream with no backing session primes with counter zero
    let plan = open_stream(&mut state, &session_headers("abc")).unwrap();
    assert_eq!(plan.session_id, "abc");
    assert_eq!(plan.initial_event_id, "abc:0");
    assert!(plan.replay.is_empty());

    // with a session, priming consumes the session's counter
    let sid = match submit(&mut state, &plain_headers(), initialize_body(1, "2025-03-26"),
        init_settings()) {
        SubmitStep::Respond(d) => d.new_session.unwrap(),
        _ => panic!("initialize should answer directly"),
    };
    let plan1 = open_stream(&mut state, &session_headers(&sid)).unwrap();
    assert_eq!(plan1.initial_event_id, format!("{}:0", sid));
    let plan2 = open_stream(&mut state, &session_headers(&sid)).unwrap();
    assert_eq!(plan2.initial_event_id, format!("{}:1", sid));

    // absent header falls back to the fixed placeholder id
    let fallback = open_stream(&mut state, &plain_headers()).unwrap();
    assert_eq!(fallback.session_id, "default");
}

#[test]
fn streams_and_termination_check_the_version_header() {
    let mut state = open_state();
    let headers = RequestHeaders {
        session_id: None,
        protocol_version: Some("1999-01-01".to_string()),
        authorization: None,
        origin: None,
        last_event_id: None,
    };
    match open_stream(&mut state, &headers) {
        Err(e) => {
            assert!(matches!(e, TransportError::Version(_)));
            assert_eq!(e.status(), 400);
        }
        Ok(_) => panic!("an unsupported version header is refused"),
    }
    match terminate(&mut state, &headers) {
        Err(e) => assert!(matches!(e, TransportError::Version(_))),
        Ok(_) => panic!("an unsupported version header is refused"),
    }
    // a recognized version passes even without a session
    let ok_headers = RequestHeaders {
        session_id: None,
        protocol_version: Some("2024-11-05".to_string()),
        authorization: None,
        origin: None,
        last_event_id: None,
    };
    assert!(open_stream(&mut state, &ok_headers).is_ok());
}

#[test]
fn version_header_must_match_the_session() {
    let mut state = open_state();
    let sid = match submit(&mut state, &plain_headers(), initialize_body(1, "2025-03-26"),
        init_settings()) {
        SubmitStep::Respond(d) => d.new_session.unwrap(),
        _ => panic!("initialize should answer directly"),
    };
    let headers = RequestHeaders {
        session_id: Some(sid),
        protocol_version: Some("1999-01-01".to_string()),
        authorization: None,
        origin: None,
        last_event_id: None,
    };
    let body = BodyShape::Valid(IncomingMessage {
        method: "initialized".to_string(),
        id: IdField::Absent,
        params: None,
        requested_protocol_version: None,
    });
    match submit(&mut state, &headers, body, init_settings()) {
        SubmitStep::Reject(e) => {
            assert!(matches!(e, TransportError::Version(_)));
            assert_eq!(e.status(), 400);
        }
        _ => panic!("an unsupported version header is refused"),
    }
}

#[test]
fn submit_rejects_forbidden_origins_first() {
    let mut state = TransportState::new(
        AuthConfig::disabled(),
        SecurityConfig { allowed_origins: Some(vec![]) },
    );
    let headers = RequestHeaders {
        session_id: None,
        protocol_version: None,
        authorization: None,
        origin: Some("http://evil.com".to_string()),
        last_event_id: None,
    };
    match submit(&mut state, &headers, initialize_body(1, "2025-03-26"), init_settings()) {
        SubmitStep::Reject(e) => {
            assert!(matches!(e, TransportError::Origin(_)));
            assert_eq!(e.status(), 403);
        }
        _ => panic!("a forbidden origin is refused before dispatch"),
    }
}
