//! The streamable transport endpoints: submitting a message, opening the
//! long-lived push stream, and explicit session termination. Every entry
//! point runs the security pipeline — origin, bearer token, protocol
//! version — in that order before anything else.

use vstd::prelude::*;

use tokio::sync::broadcast::Sender;

use crate::dispatch::{
    dispatch_begin, dispatch_post, BodyShape, DispatchDone, DispatchError, DispatchStep,
    InitSettings, TransportState,
};
use crate::protocol::RequestId;
use crate::security::{
    auth_decision, origin_passes, validate_auth, validate_origin, validate_protocol_version,
    version_passes, AuthError, OriginError, VersionError,
};
use crate::session::{event_id_seq, StoredEvent};
use crate::strutil::str_eq;

verus! {

/// The request headers this transport reads.
pub struct RequestHeaders {
    pub session_id: Option<String>,
    pub protocol_version: Option<String>,
    pub authorization: Option<String>,
    pub origin: Option<String>,
    pub last_event_id: Option<String>,
}

/// A transport-level rejection, mapped to an HTTP status and a small
/// machine-readable error body.
#[derive(Debug)]
pub enum TransportError {
    /// The origin policy refused the request: 403.
    Origin(OriginError),
    /// The bearer-token check refused the request: 401, or 500 when
    /// auth is enabled with no token configured.
    Auth(AuthError),
    /// A session id was supplied but is unknown or expired: 404.
    SessionNotFound,
    /// The endpoint requires a session id header and none came: 400.
    MissingSessionHeader,
    /// The protocol-version header named an unsupported version: 400.
    Version(VersionError),
    /// The message body was malformed: its own status, usually 400.
    Body(DispatchError),
}

impl TransportError {
    /// The HTTP status this rejection maps to.
    pub fn status(&self) -> (s: u16)
        ensures
            self is Origin ==> s == 403,
            self matches TransportError::Auth(a) ==> (s == if a is NotConfigured {
                500u16
            } else {
                401u16
            }),
            self is SessionNotFound ==> s == 404,
            self is MissingSessionHeader ==> s == 400,
            self is Version ==> s == 400,
            self matches TransportError::Body(e) ==> s == e.status,
    {
        match self {
            TransportError::Origin(e) => e.status(),
            TransportError::Auth(a) => a.status(),
            TransportError::SessionNotFound => 404,
            TransportError::MissingSessionHeader => 400,
            TransportError::Version(e) => e.status(),
            TransportError::Body(e) => e.status,
        }
    }
}

/// The submit endpoint's verdict on one request.
pub enum SubmitStep {
    /// Refuse at the HTTP level.
    Reject(TransportError),
    /// Answer immediately.
    Respond(DispatchDone),
    /// Consult the external handler, then answer with
    /// [`crate::dispatch::dispatch_finish`].
    CallHandler { method: String, params: Option<String>, id: Option<RequestId> },
}

/// The message asks to establish a session.
pub open spec fn body_is_initialize(body: &BodyShape) -> bool {
    match body {
        BodyShape::Valid(m) => m.method@ == "initialize"@,
        _ => false,
    }
}

/// The origin check passes for this request.
pub open spec fn origin_ok(state: &TransportState, headers: &RequestHeaders) -> bool {
    origin_passes(state.security.origins(), headers.origin.deep_view())
}

/// The bearer-token check passes for this request.
pub open spec fn auth_ok(state: &TransportState, headers: &RequestHeaders) -> bool {
    auth_decision(
        state.auth.enabled,
        state.auth.token_view(),
        headers.authorization.deep_view(),
    ) is Ok
}

/// The version the header must agree with: the named session's
/// negotiated version when that session is known, else the server's
/// current version.
pub open spec fn version_expected(state: &TransportState, headers: &RequestHeaders) -> Option<
    Seq<char>,
> {
    match headers.session_id {
        Some(sid) => if state.sessions.contains_id(sid@) {
            Some(state.sessions.value_of(sid@).protocol_version@)
        } else {
            None
        },
        None => None,
    }
}

/// The protocol-version check passes for this request.
pub open spec fn version_ok(state: &TransportState, headers: &RequestHeaders) -> bool {
    version_passes(headers.protocol_version.deep_view(), version_expected(state, headers))
}

/// The session named by the headers must exist and the version header
/// must agree with its negotiated version; only `initialize` is exempt.
pub open spec fn session_gate_ok(
    state: &TransportState,
    headers: &RequestHeaders,
    is_initialize: bool,
) -> bool {
    match headers.session_id {
        Some(sid) => is_initialize || (state.sessions.contains_id(sid@) && version_passes(
            headers.protocol_version.deep_view(),
            Some(state.sessions.value_of(sid@).protocol_version@),
        )),
        None => true,
    }
}

/// Submit one message to the transport (the POST entry point).
///
/// Runs the security pipeline, requires a supplied session to exist and
/// match the version header (except for `initialize`), then dispatches
/// the message as [`dispatch_begin`] describes.
pub fn submit(
    state: &mut TransportState,
    headers: &RequestHeaders,
    body: BodyShape,
    init: InitSettings,
) -> (r: SubmitStep)
    requires
        old(state).wf(),
    ensures
        final(state).wf(),
        final(state).auth == old(state).auth,
        final(state).security == old(state).security,
        !origin_ok(old(state), headers) ==> (r matches SubmitStep::Reject(TransportError::Origin(
            _,
        )) && *final(state) == *old(state)),
        origin_ok(old(state), headers) && !auth_ok(old(state), headers) ==> (r matches
            SubmitStep::Reject(TransportError::Auth(a)) && Err::<(), AuthError>(a) == auth_decision(
            old(state).auth.enabled,
            old(state).auth.token_view(),
            headers.authorization.deep_view(),
        ) && *final(state) == *old(state)),
        origin_ok(old(state), headers) && auth_ok(old(state), headers) && !body_is_initialize(
            &body,
        ) && (headers.session_id matches Some(sid) && !old(state).sessions.contains_id(sid@))
            ==> (r matches SubmitStep::Reject(TransportError::SessionNotFound) && *final(state)
            == *old(state)),
        origin_ok(old(state), headers) && auth_ok(old(state), headers) && !body_is_initialize(
            &body,
        ) && (headers.session_id matches Some(sid) && old(state).sessions.contains_id(sid@)
            && !version_passes(
            headers.protocol_version.deep_view(),
            Some(old(state).sessions.value_of(sid@).protocol_version@),
        )) ==> (r matches SubmitStep::Reject(TransportError::Version(_)) && *final(state) == *old(state)),
        origin_ok(old(state), headers) && auth_ok(old(state), headers) && session_gate_ok(
            old(state),
            headers,
            body_is_initialize(&body),
        ) ==> dispatch_post(
            *old(state),
            *final(state),
            headers.session_id.deep_view(),
            body,
            init,
            match r {
                SubmitStep::Reject(TransportError::Body(e)) => Err(e),
                SubmitStep::Respond(d) => Ok(DispatchStep::Done(d)),
                SubmitStep::CallHandler { method, params, id } => Ok(
                    DispatchStep::NeedHandler { method, params, id },
                ),
                _ => arbitrary(),
            },
        ) && !(r matches SubmitStep::Reject(e) && !(e is Body)),
{
    let origin: Option<&str> = match &headers.origin {
        Some(s) => Some(s.as_str()),
        None => None,
    };
    if let Err(e) = validate_origin(origin, &state.security) {
        return SubmitStep::Reject(TransportError::Origin(e));
    }
    let authorization: Option<&str> = match &headers.authorization {
        Some(s) => Some(s.as_str()),
        None => None,
    };
    if let Err(e) = validate_auth(authorization, &state.auth) {
        return SubmitStep::Reject(TransportError::Auth(e));
    }

    let is_initialize = match &body {
        BodyShape::Valid(m) => str_eq(m.method.as_str(), "initialize"),
        _ => false,
    };

    if !is_initialize {
        if let Some(sid) = &headers.session_id {
            let session_version: Option<String> = match state.sessions.get(sid.as_str()) {
                None => {
                    return SubmitStep::Reject(TransportError::SessionNotFound);
                },
                Some(st) => Some(st.protocol_version.clone()),
            };
            let version_header: Option<&str> = match &headers.protocol_version {
                Some(s) => Some(s.as_str()),
                None => None,
            };
            let expected: Option<&str> = match &session_version {
                Some(s) => Some(s.as_str()),
                None => None,
            };
            if let Err(e) = validate_protocol_version(version_header, expected) {
                return SubmitStep::Reject(TransportError::Version(e));
            }
        }
    }

    let session_id: Option<&str> = match &headers.session_id {
        Some(s) => Some(s.as_str()),
        None => None,
    };
    match dispatch_begin(state, session_id, body, init) {
        Err(e) => SubmitStep::Reject(TransportError::Body(e)),
        Ok(DispatchStep::Done(d)) => SubmitStep::Respond(d),
        Ok(DispatchStep::NeedHandler { method, params, id }) => SubmitStep::CallHandler {
            method,
            params,
            id,
        },
    }
}

/// What opening the push stream hands back to the caller: the session
/// id the stream serves, the id for the connection-priming event, any
/// events eligible for replay, and a sender handle on the channel.
pub struct StreamPlan {
    pub session_id: String,
    pub initial_event_id: String,
    /// Events to replay before going live. Replay on reconnect is
    /// scaffolded but not wired up: this is always empty for now.
    pub replay: Vec<StoredEvent>,
    pub sender: Sender<String>,
}

/// Open the push stream (the GET entry point).
///
/// Runs the security pipeline — origin, bearer token, protocol
/// version — then resolves the session id (a fixed placeholder when
/// the header is absent), lazily creates the push channel, and mints
/// the connection-priming event id — from the session's counter when
/// the session is known, else `sid:0`.
pub fn open_stream(state: &mut TransportState, headers: &RequestHeaders) -> (r: Result<
    StreamPlan,
    TransportError,
>)
    requires
        old(state).wf(),
    ensures
        final(state).wf(),
        final(state).auth == old(state).auth,
        final(state).security == old(state).security,
        !origin_ok(old(state), headers) ==> (r matches Err(TransportError::Origin(_)) && *final(state) == *old(state)),
        origin_ok(old(state), headers) && !auth_ok(old(state), headers) ==> (r matches Err(
            TransportError::Auth(_),
        ) && *final(state) == *old(state)),
        origin_ok(old(state), headers) && auth_ok(old(state), headers) && !version_ok(
            old(state),
            headers,
        ) ==> (r matches Err(TransportError::Version(_)) && *final(state) == *old(state)),
        origin_ok(old(state), headers) && auth_ok(old(state), headers) && version_ok(
            old(state),
            headers,
        ) ==> (r matches Ok(plan) && {
            &&& plan.session_id@ == match headers.session_id {
                Some(sid) => sid@,
                None => "default"@,
            }
            &&& final(state).channels.has_channel(plan.session_id@)
            &&& forall|k: Seq<char>|
                k != plan.session_id@ ==> final(state).channels.has_channel(k) == old(state).channels.has_channel(k)
            &&& plan.replay@.len() == 0
            &&& forall|k: Seq<char>|
                final(state).sessions.contains_id(k) == old(state).sessions.contains_id(k)
            &&& if old(state).sessions.contains_id(plan.session_id@) && old(state).sessions.value_of(plan.session_id@).event_counter < u64::MAX {
                &&& plan.initial_event_id@ == event_id_seq(
                    plan.session_id@,
                    old(state).sessions.value_of(plan.session_id@).event_counter,
                )
                &&& final(state).sessions.value_of(plan.session_id@).event_counter == old(state).sessions.value_of(plan.session_id@).event_counter + 1
                &&& final(state).sessions.value_of(plan.session_id@).initialized == old(state).sessions.value_of(plan.session_id@).initialized
                &&& final(state).sessions.value_of(plan.session_id@).protocol_version == old(state).sessions.value_of(plan.session_id@).protocol_version
            } else {
                &&& plan.initial_event_id@ == event_id_seq(plan.session_id@, 0)
                &&& final(state).sessions == old(state).sessions
            }
            &&& forall|k: Seq<char>|
                k != plan.session_id@ && old(state).sessions.contains_id(k) ==> final(state).sessions.value_of(k) == old(state).sessions.value_of(k)
        }),
{
    let origin: Option<&str> = match &headers.origin {
        Some(s) => Some(s.as_str()),
        None => None,
    };
    if let Err(e) = validate_origin(origin, &state.security) {
        return Err(TransportError::Origin(e));
    }
    let authorization: Option<&str> = match &headers.authorization {
        Some(s) => Some(s.as_str()),
        None => None,
    };
    if let Err(e) = validate_auth(authorization, &state.auth) {
        return Err(TransportError::Auth(e));
    }
    if let Err(e) = check_version_header(state, headers) {
        return Err(TransportError::Version(e));
    }

    let session_id: String = match &headers.session_id {
        Some(s) => s.clone(),
        None => String::from_str("default"),
    };

    let sender = state.channels.get_or_create(session_id.as_str());

    let can_mint = match state.sessions.get(session_id.as_str()) {
        Some(st) => st.event_counter < u64::MAX,
        None => false,
    };
    let initial_event_id: String = if can_mint {
        match state.sessions.take(session_id.as_str()) {
            Some(mut st) => {
                let id = st.next_event_id(session_id.as_str());
                state.sessions.insert(session_id.clone(), st);
                id
            },
            None => {
                proof {
                    assert(false);
                }
                zero_event_id(session_id.as_str())
            },
        }
    } else {
        zero_event_id(session_id.as_str())
    };

    Ok(StreamPlan { session_id, initial_event_id, replay: Vec::new(), sender })
}

/// Check the protocol-version header against the session the headers
/// name, when that session is known, else the server's current version.
fn check_version_header(state: &TransportState, headers: &RequestHeaders) -> (r: Result<
    (),
    VersionError,
>)
    requires
        state.wf(),
    ensures
        r.is_ok() == version_ok(state, headers),
{
    let session_version: Option<String> = match &headers.session_id {
        Some(sid) => match state.sessions.get(sid.as_str()) {
            Some(st) => Some(st.protocol_version.clone()),
            None => None,
        },
        None => None,
    };
    let version_header: Option<&str> = match &headers.protocol_version {
        Some(s) => Some(s.as_str()),
        None => None,
    };
    let expected: Option<&str> = match &session_version {
        Some(s) => Some(s.as_str()),
        None => None,
    };
    validate_protocol_version(version_header, expected)
}

/// The placeholder priming-event id used when no session state backs
/// the stream: the session id with counter zero.
fn zero_event_id(session_id: &str) -> (r: String)
    ensures
        r@ == event_id_seq(session_id@, 0),
{
    let r = String::from_str(session_id).concat(":0");
    proof {
        reveal_strlit(":0");
        assert(r@ =~= event_id_seq(session_id@, 0));
    }
    r
}

/// Mint a fresh event id for a live message on `session_id`'s stream.
/// Returns `None` when no session state backs the stream (the caller
/// falls back to an unscoped id) or the counter is exhausted.
pub fn mint_event_id(state: &mut TransportState, session_id: &str) -> (r: Option<String>)
    requires
        old(state).wf(),
    ensures
        final(state).wf(),
        final(state).auth == old(state).auth,
        final(state).security == old(state).security,
        forall|k: Seq<char>|
            final(state).sessions.contains_id(k) == old(state).sessions.contains_id(k),
        forall|k: Seq<char>|
            k != session_id@ && old(state).sessions.contains_id(k) ==> final(state).sessions.value_of(k) == old(state).sessions.value_of(k),
        final(state).channels == old(state).channels,
        if old(state).sessions.contains_id(session_id@) && old(state).sessions.value_of(
            session_id@,
        ).event_counter < u64::MAX {
            r matches Some(id) && id@ == event_id_seq(
                session_id@,
                old(state).sessions.value_of(session_id@).event_counter,
            ) && final(state).sessions.value_of(session_id@).event_counter == old(state).sessions.value_of(session_id@).event_counter + 1 && final(state).sessions.value_of(session_id@).initialized == old(state).sessions.value_of(
                session_id@,
            ).initialized && final(state).sessions.value_of(session_id@).protocol_version == old(state).sessions.value_of(session_id@).protocol_version
        } else {
            r is None && *final(state) == *old(state)
        },
{
    let can_mint = match state.sessions.get(session_id) {
        Some(st) => st.event_counter < u64::MAX,
        None => false,
    };
    if !can_mint {
        return None;
    }
    match state.sessions.take(session_id) {
        Some(mut st) => {
            let id = st.next_event_id(session_id);
            state.sessions.insert(session_id.to_owned(), st);
            Some(id)
        },
        None => {
            proof {
                assert(false);
            }
            None
        },
    }
}

/// The verdict of a termination request for a given session.
pub enum TerminateOutcome {
    /// The session existed and was removed: 200.
    Removed,
    /// No such session: 404.
    NotFound,
}

impl TerminateOutcome {
    /// The HTTP status this verdict maps to.
    pub fn status(&self) -> (s: u16)
        ensures
            self is Removed <==> s == 200,
            self is NotFound <==> s == 404,
    {
        match self {
            TerminateOutcome::Removed => 200,
            TerminateOutcome::NotFound => 404,
        }
    }
}

/// What terminating `sid` in `state` reports.
pub open spec fn terminate_verdict(state: TransportState, sid: Seq<char>) -> TerminateOutcome {
    if state.sessions.contains_id(sid) {
        TerminateOutcome::Removed
    } else {
        TerminateOutcome::NotFound
    }
}

/// Explicitly terminate a session (the DELETE entry point).
///
/// Runs the security pipeline — origin, bearer token, protocol
/// version — requires the session id header, and removes both the
/// session and its push channel; 200 when the session existed, 404
/// otherwise.
pub fn terminate(state: &mut TransportState, headers: &RequestHeaders) -> (r: Result<
    TerminateOutcome,
    TransportError,
>)
    requires
        old(state).wf(),
    ensures
        final(state).wf(),
        final(state).auth == old(state).auth,
        final(state).security == old(state).security,
        !origin_ok(old(state), headers) ==> (r matches Err(TransportError::Origin(_)) && *final(state) == *old(state)),
        origin_ok(old(state), headers) && !auth_ok(old(state), headers) ==> (r matches Err(
            TransportError::Auth(_),
        ) && *final(state) == *old(state)),
        origin_ok(old(state), headers) && auth_ok(old(state), headers) && !version_ok(
            old(state),
            headers,
        ) ==> (r matches Err(TransportError::Version(_)) && *final(state) == *old(state)),
        origin_ok(old(state), headers) && auth_ok(old(state), headers) && version_ok(
            old(state),
            headers,
        ) ==> match headers.session_id {
            None => r matches Err(TransportError::MissingSessionHeader) && *final(state) == *old(state),
            Some(sid) => r matches Ok(out) && {
            &&& out == terminate_verdict(*old(state), sid@)
            &&& !final(state).sessions.contains_id(sid@)
            &&& !final(state).channels.has_channel(sid@)
            &&& forall|k: Seq<char>|
                k != sid@ ==> final(state).sessions.contains_id(k) == old(state).sessions.contains_id(k)
            &&& forall|k: Seq<char>|
                k != sid@ && old(state).sessions.contains_id(k) ==> final(state).sessions.value_of(k) == old(state).sessions.value_of(k)
            &&& forall|k: Seq<char>|
                k != sid@ ==> final(state).channels.has_channel(k) == old(state).channels.has_channel(k)
            },
        },
{
    let origin: Option<&str> = match &headers.origin {
        Some(s) => Some(s.as_str()),
        None => None,
    };
    if let Err(e) = validate_origin(origin, &state.security) {
        return Err(TransportError::Origin(e));
    }
    let authorization: Option<&str> = match &headers.authorization {
        Some(s) => Some(s.as_str()),
        None => None,
    };
    if let Err(e) = validate_auth(authorization, &state.auth) {
        return Err(TransportError::Auth(e));
    }
    if let Err(e) = check_version_header(state, headers) {
        return Err(TransportError::Version(e));
    }

    let sid = match &headers.session_id {
        None => {
            return Err(TransportError::MissingSessionHeader);
        },
        Some(sid) => sid,
    };

    let removed = state.sessions.take(sid.as_str()).is_some();
    let _ = state.channels.remove(sid.as_str());

    if removed {
        Ok(TerminateOutcome::Removed)
    } else {
        Ok(TerminateOutcome::NotFound)
    }
}

/// Termination is idempotent: once a terminate has removed a session,
/// terminating the same id again reports "not found".
pub proof fn lemma_terminate_idempotent(
    after_first: TransportState,
    sid: Seq<char>,
    second: TerminateOutcome,
)
    requires
        !after_first.sessions.contains_id(sid),
        second == terminate_verdict(after_first, sid),
    ensures
        second is NotFound,
{
}

} // verus!
