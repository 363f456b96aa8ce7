//! The legacy transport: a stream-opening endpoint that mints a fresh
//! session id and announces the side-channel submission path, and a
//! submit endpoint whose results are delivered only over the push
//! stream — the POST itself always answers 202.

use vstd::prelude::*;

use tokio::sync::broadcast::Sender;

use crate::dispatch::{
    dispatch_begin, dispatch_finish, dispatch_post, fresh_session_id, BodyShape, DispatchDone,
    DispatchStep, InitSettings, TransportState,
};
use crate::protocol::{JsonRpcResponse, RequestId, RpcPayload, CODE_INTERNAL_ERROR};
use crate::security::{validate_auth, validate_origin, validate_protocol_version, version_passes};
use crate::streamable::{auth_ok, origin_ok, RequestHeaders, TransportError};

verus! {

/// What opening the legacy stream hands back: the freshly minted
/// session id, the announced submission path embedding it, and a sender
/// handle on the new channel.
pub struct LegacyStreamPlan {
    pub session_id: String,
    pub endpoint_path: String,
    pub sender: Sender<String>,
}

/// Open the legacy push stream.
///
/// Runs the security pipeline — origin, bearer token, protocol
/// version (against the server's current version: any session header
/// is ignored here). Then mints a brand-new session id, creates its
/// channel, and announces `/messages?sessionId=<id>` as the path where
/// subsequent messages must be posted.
pub fn legacy_open(state: &mut TransportState, headers: &RequestHeaders) -> (r: Result<
    LegacyStreamPlan,
    TransportError,
>)
    requires
        old(state).wf(),
    ensures
        final(state).wf(),
        final(state).auth == old(state).auth,
        final(state).security == old(state).security,
        !origin_ok(old(state), headers) ==> (r matches Err(TransportError::Origin(_)) && *final(state) == *old(state)),
        origin_ok(old(state), headers) && !auth_ok(old(state), headers) ==> (r matches Err(
            TransportError::Auth(_),
        ) && *final(state) == *old(state)),
        origin_ok(old(state), headers) && auth_ok(old(state), headers) && !version_passes(
            headers.protocol_version.deep_view(),
            None::<Seq<char>>,
        ) ==> (r matches Err(TransportError::Version(_)) && *final(state) == *old(state)),
        origin_ok(old(state), headers) && auth_ok(old(state), headers) && version_passes(
            headers.protocol_version.deep_view(),
            None::<Seq<char>>,
        ) ==> (r matches Ok(plan) && {
            &&& plan.endpoint_path@ == "/messages?sessionId="@ + plan.session_id@
            &&& final(state).channels.has_channel(plan.session_id@)
            &&& forall|k: Seq<char>|
                k != plan.session_id@ ==> final(state).channels.has_channel(k) == old(state).channels.has_channel(k)
            &&& final(state).sessions == old(state).sessions
        }),
{
    let origin: Option<&str> = match &headers.origin {
        Some(s) => Some(s.as_str()),
        None => None,
    };
    if let Err(e) = validate_origin(origin, &state.security) {
        return Err(TransportError::Origin(e));
    }
    let authorization: Option<&str> = match &headers.authorization {
        Some(s) => Some(s.as_str()),
        None => None,
    };
    if let Err(e) = validate_auth(authorization, &state.auth) {
        return Err(TransportError::Auth(e));
    }
    let version_header: Option<&str> = match &headers.protocol_version {
        Some(s) => Some(s.as_str()),
        None => None,
    };
    if let Err(e) = validate_protocol_version(version_header, None) {
        return Err(TransportError::Version(e));
    }

    let session_id = fresh_session_id();
    let sender = state.channels.get_or_create(session_id.as_str());
    let endpoint_path = String::from_str("/messages?sessionId=").concat(session_id.as_str());

    Ok(LegacyStreamPlan { session_id, endpoint_path, sender })
}

/// The legacy submit endpoint's verdict on one request.
pub enum LegacySubmitStep {
    /// Refuse at the HTTP level (origin, token or version).
    Reject(TransportError),
    /// The dispatcher refused the message: answer 400 with no body.
    BadRequest,
    /// The dispatcher answered: publish the response on the session's
    /// push stream, then answer 202.
    Publish { session_id: String, done: DispatchDone },
    /// Nothing to deliver: answer 202.
    Accepted { done: DispatchDone },
    /// Consult the external handler, then finish with
    /// [`legacy_submit_finish`] and answer 202.
    CallHandler {
        session_id: Option<String>,
        method: String,
        params: Option<String>,
        id: Option<RequestId>,
    },
}

/// The session the legacy submit works against: the query-string id
/// when one came, else the session header.
pub open spec fn legacy_session(query_session: &Option<String>, headers: &RequestHeaders)
    -> Option<Seq<char>> {
    match query_session {
        Some(q) => Some(q@),
        None => headers.session_id.deep_view(),
    }
}

/// The protocol-version check passes for this legacy submission: the
/// header must agree with the named session's negotiated version when
/// that session is known, else with the server's current version.
pub open spec fn legacy_version_ok(
    state: &TransportState,
    query_session: &Option<String>,
    headers: &RequestHeaders,
) -> bool {
    version_passes(
        headers.protocol_version.deep_view(),
        match legacy_session(query_session, headers) {
            Some(s) => if state.sessions.contains_id(s) {
                Some(state.sessions.value_of(s).protocol_version@)
            } else {
                None
            },
            None => None,
        },
    )
}

/// Submit one message over the legacy transport.
///
/// Runs the security pipeline — origin, bearer token, protocol
/// version. The session id comes from the query string or the session
/// header. The message is dispatched exactly like the streamable
/// transport's submit, but the computed result is never returned
/// inline: it is handed back for publication on the session's push
/// stream, and the POST answers 202 regardless of outcome.
#[verifier::rlimit(60)]
#[verifier::spinoff_prover]
pub fn legacy_submit(
    state: &mut TransportState,
    headers: &RequestHeaders,
    query_session: Option<String>,
    body: BodyShape,
    init: InitSettings,
) -> (r: LegacySubmitStep)
    requires
        old(state).wf(),
    ensures
        final(state).wf(),
        final(state).auth == old(state).auth,
        final(state).security == old(state).security,
        !origin_ok(old(state), headers) ==> (r matches LegacySubmitStep::Reject(
            TransportError::Origin(_),
        ) && *final(state) == *old(state)),
        origin_ok(old(state), headers) && !auth_ok(old(state), headers) ==> (r matches
            LegacySubmitStep::Reject(TransportError::Auth(_)) && *final(state) == *old(state)),
        origin_ok(old(state), headers) && auth_ok(old(state), headers) && !legacy_version_ok(
            old(state),
            &query_session,
            headers,
        ) ==> (r matches LegacySubmitStep::Reject(TransportError::Version(_)) && *final(state)
            == *old(state)),
        origin_ok(old(state), headers) && auth_ok(old(state), headers) && legacy_version_ok(
            old(state),
            &query_session,
            headers,
        ) ==> {
            let session = match query_session {
                Some(q) => Some(q@),
                None => headers.session_id.deep_view(),
            };
            match r {
                LegacySubmitStep::Reject(_) => false,
                LegacySubmitStep::BadRequest => *final(state) == *old(state),
                LegacySubmitStep::Publish { session_id, done } => {
                    &&& session == Some(session_id@)
                    &&& done.response is Some
                    &&& dispatch_post(*old(state), *final(state), session, body, init, Ok(
                        DispatchStep::Done(done),
                    ))
                },
                LegacySubmitStep::Accepted { done } => {
                    &&& done.response is None || session is None
                    &&& dispatch_post(*old(state), *final(state), session, body, init, Ok(
                        DispatchStep::Done(done),
                    ))
                },
                LegacySubmitStep::CallHandler { session_id, method, params, id } => {
                    &&& session_id.deep_view() == session
                    &&& dispatch_post(*old(state), *final(state), session, body, init, Ok(
                        DispatchStep::NeedHandler { method, params, id },
                    ))
                },
            }
        },
{
    let origin: Option<&str> = match &headers.origin {
        Some(s) => Some(s.as_str()),
        None => None,
    };
    if let Err(e) = validate_origin(origin, &state.security) {
        return LegacySubmitStep::Reject(TransportError::Origin(e));
    }
    let authorization: Option<&str> = match &headers.authorization {
        Some(s) => Some(s.as_str()),
        None => None,
    };
    if let Err(e) = validate_auth(authorization, &state.auth) {
        return LegacySubmitStep::Reject(TransportError::Auth(e));
    }

    let session: Option<String> = match query_session {
        Some(q) => Some(q),
        None => match &headers.session_id {
            Some(s) => Some(s.clone()),
            None => None,
        },
    };
    let session_ref: Option<&str> = match &session {
        Some(s) => Some(s.as_str()),
        None => None,
    };

    let session_version: Option<String> = match session_ref {
        Some(sid) => match state.sessions.get(sid) {
            Some(st) => Some(st.protocol_version.clone()),
            None => None,
        },
        None => None,
    };
    let version_header: Option<&str> = match &headers.protocol_version {
        Some(s) => Some(s.as_str()),
        None => None,
    };
    let expected: Option<&str> = match &session_version {
        Some(s) => Some(s.as_str()),
        None => None,
    };
    if let Err(e) = validate_protocol_version(version_header, expected) {
        return LegacySubmitStep::Reject(TransportError::Version(e));
    }

    let result: LegacySubmitStep = match dispatch_begin(state, session_ref, body, init) {
        Err(_) => LegacySubmitStep::BadRequest,
        Ok(DispatchStep::Done(d)) => {
            let has_response = matches!(&d.response, Some(_));
            match (session, has_response) {
                (Some(sess), true) => LegacySubmitStep::Publish { session_id: sess, done: d },
                _ => LegacySubmitStep::Accepted { done: d },
            }
        },
        Ok(DispatchStep::NeedHandler { method, params, id }) => LegacySubmitStep::CallHandler {
            session_id: session,
            method,
            params,
            id,
        },
    };
    result
}

/// Complete a legacy exchange after the external handler ran: the
/// response envelope to publish on the session's stream, if the call
/// produced one and a session id accompanied the request.
pub fn legacy_submit_finish(
    session_id: Option<String>,
    id: Option<RequestId>,
    outcome: Result<String, String>,
) -> (r: Option<(String, JsonRpcResponse)>)
    ensures
        match (session_id, id) {
            (Some(sid), Some(i)) => r matches Some(pair) && {
                &&& pair.0 == sid
                &&& pair.1.id == i
                &&& match outcome {
                    Ok(raw) => pair.1.outcome matches Ok(RpcPayload::Raw(t)) && t == raw,
                    Err(msg) => pair.1.outcome matches Err(err) && err.code
                        == CODE_INTERNAL_ERROR && err.message == msg,
                }
            },
            _ => r is None,
        },
{
    let sess = match session_id {
        None => {
            return None;
        },
        Some(s) => s,
    };
    let done = dispatch_finish(id, outcome);
    match done.response {
        Some(resp) => Some((sess, resp)),
        None => None,
    }
}

} // verus!
