//! The JSON-RPC dispatcher: interprets one inbound message against the
//! session registry, manages the initialize/initialized handshake, and
//! either answers directly or asks the caller to consult the external
//! handler. The handler call itself is outside work; the caller performs
//! it and completes the exchange with [`dispatch_finish`].

use vstd::prelude::*;

use crate::channels::ChannelRegistry;
use crate::protocol::{
    negotiate_initialize, JsonRpcResponse, RequestId, RpcPayload, CODE_INTERNAL_ERROR,
    CODE_SERVER_NOT_INITIALIZED,
};
use crate::registry::StrTable;
use crate::security::{AuthConfig, SecurityConfig};
use crate::session::SessionState;
use crate::strutil::str_eq;

verus! {

/// Relies on uuid::Uuid::new_v4 and its Display impl: a freshly drawn
/// random v4 UUID in hyphenated lowercase form. Randomness promises
/// nothing further about the value.
#[verifier::external_body]
pub(crate) fn fresh_session_id() -> String {
    uuid::Uuid::new_v4().to_string()
}

/// The shared state of one transport instance: the session registry,
/// the push-channel registry and the security policies.
pub struct TransportState {
    pub sessions: StrTable<SessionState>,
    pub channels: ChannelRegistry,
    pub auth: AuthConfig,
    pub security: SecurityConfig,
}

impl TransportState {
    /// Both registries keep their keys distinct.
    pub open spec fn wf(&self) -> bool {
        self.sessions.wf() && self.channels.wf()
    }

    /// A session that exists and has completed the handshake.
    pub open spec fn session_active(&self, sid: Seq<char>) -> bool {
        self.sessions.contains_id(sid) && self.sessions.value_of(sid).initialized
    }

    /// A fresh transport with no sessions and no channels.
    pub fn new(auth: AuthConfig, security: SecurityConfig) -> (r: TransportState)
        ensures
            r.wf(),
            forall|k: Seq<char>| !r.sessions.contains_id(k),
            forall|k: Seq<char>| !r.channels.has_channel(k),
            r.auth == auth,
            r.security == security,
    {
        TransportState {
            sessions: StrTable::new(),
            channels: ChannelRegistry::new(),
            auth,
            security,
        }
    }
}

/// The `id` member of an inbound message, as found on the wire.
pub enum IdField {
    /// No `id`: the message is a notification.
    Absent,
    /// A numeric id.
    Num(i64),
    /// A string id.
    Str(String),
    /// An `id` of some other JSON type, which the protocol rejects.
    Invalid,
}

/// One inbound JSON-RPC message, reduced to the fields this layer reads.
/// `params` carries the raw params JSON text for the external handler.
pub struct IncomingMessage {
    pub method: String,
    pub id: IdField,
    pub params: Option<String>,
    /// The `protocolVersion` string found inside `params`, when present.
    pub requested_protocol_version: Option<String>,
}

/// The shape of an inbound request body.
pub enum BodyShape {
    /// The body was not a JSON object.
    NotObject,
    /// The body had no string `method` member.
    NoMethod,
    /// A message this layer can interpret.
    Valid(IncomingMessage),
}

/// What the transport sends back when the dispatcher answered directly.
pub struct DispatchDone {
    /// A session id to echo in the response headers (`initialize` only).
    pub new_session: Option<String>,
    /// The response envelope, if the answer carries a body.
    pub response: Option<JsonRpcResponse>,
    /// The HTTP status to answer with.
    pub status: u16,
    /// A protocol version to echo in the response headers (`initialize` only).
    pub protocol_version: Option<String>,
}

/// The dispatcher's verdict on one message.
pub enum DispatchStep {
    /// Answer immediately.
    Done(DispatchDone),
    /// Consult the external handler, then finish with [`dispatch_finish`].
    /// `id` is `None` for notifications, whose outcome is discarded.
    NeedHandler { method: String, params: Option<String>, id: Option<RequestId> },
}

/// A malformed message, rejected at the HTTP level.
#[derive(Debug)]
pub struct DispatchError {
    pub status: u16,
    pub message: String,
}

/// The handshake-time values obtained from the external handler.
pub struct InitSettings {
    pub protocol_default: String,
    pub server_name: String,
    pub instructions: String,
    pub instance_names: Vec<String>,
}

/// The version a session negotiates for this message: the requested
/// version when recognized, the configured default otherwise.
pub open spec fn negotiated_version(m: &IncomingMessage, init: &InitSettings) -> Seq<char> {
    match m.requested_protocol_version {
        Some(v) => if crate::protocol::known_protocol_version(v@) {
            v@
        } else {
            init.protocol_default@
        },
        None => init.protocol_default@,
    }
}

/// The request id the message carries, with the placeholder the
/// transport substitutes when it must answer without a usable id.
pub open spec fn id_or_unknown(f: &IdField, r: &RequestId) -> bool {
    match f {
        IdField::Num(n) => r matches RequestId::Num(m) && m == n,
        IdField::Str(s) => r matches RequestId::Str(t) && t@ == s@,
        _ => r matches RequestId::Str(t) && t@ == "unknown"@,
    }
}

/// A session id is supplied, known, and still negotiating.
pub open spec fn known_uninitialized(state: &TransportState, sid: Option<Seq<char>>) -> bool {
    match sid {
        Some(s) => state.sessions.contains_id(s) && !state.sessions.value_of(s).initialized,
        None => false,
    }
}

/// Everything [`dispatch_begin`] guarantees about one message, stated
/// over the state before (`pre`) and after (`post`) the call. The
/// endpoint layers restate this predicate so their callers see the
/// dispatcher's behaviour through them.
pub open spec fn dispatch_post(
    pre: TransportState,
    post: TransportState,
    session_id: Option<Seq<char>>,
    body: BodyShape,
    init: InitSettings,
    r: Result<DispatchStep, DispatchError>,
) -> bool {
    &&& post.auth == pre.auth
    &&& post.security == pre.security
    &&& (r matches Err(e) ==> post == pre && (e.status == 400 || e.status == 500))
    &&& ((body matches BodyShape::NotObject) ==> (r matches Err(e) && e.status == 400
        && e.message@ == "expected object"@))
    &&& ((body matches BodyShape::NoMethod) ==> (r matches Err(e) && e.status == 400
        && e.message@ == "missing method"@))
    // initialize without an id is rejected
    &&& ((match body {
        BodyShape::Valid(m) => m.method@ == "initialize"@ && m.id is Absent,
        _ => false,
    }) ==> (r matches Err(e) && e.status == 400 && e.message@ == "initialize requires id"@))
    // initialize with an id of the wrong JSON type is rejected
    &&& ((match body {
        BodyShape::Valid(m) => m.method@ == "initialize"@ && m.id is Invalid,
        _ => false,
    }) ==> (r matches Err(e) && e.status == 400 && e.message@
        == "initialize id must be a number or string"@))
    // initialize with an id: a new negotiating session, absent before,
    // present after, with its channel and the negotiated version
    &&& ((match body {
        BodyShape::Valid(m) => m.method@ == "initialize"@ && (m.id is Num || m.id is Str),
        _ => false,
    }) ==> (r matches Err(e) && e.status == 500 && e.message@ == "session id collision"@
        && pre.sessions.spec_len() > 0) || (match (
        &body,
        &r,
    ) {
        (BodyShape::Valid(m), Ok(DispatchStep::Done(d))) => {
            &&& d.status == 200
            &&& d.new_session matches Some(ns) && {
                &&& !pre.sessions.contains_id(ns@)
                &&& post.sessions.contains_id(ns@)
                &&& post.channels.has_channel(ns@)
                &&& !post.sessions.value_of(ns@).initialized
                &&& post.sessions.value_of(ns@).protocol_version@ == negotiated_version(m, &init)
                &&& post.sessions.value_of(ns@).event_counter == 0
                &&& forall|k: Seq<char>|
                    k != ns@ ==> post.sessions.contains_id(k) == pre.sessions.contains_id(k)
                &&& forall|k: Seq<char>|
                    k != ns@ && pre.sessions.contains_id(k) ==> post.sessions.value_of(k)
                        == pre.sessions.value_of(k)
                &&& forall|k: Seq<char>|
                    k != ns@ ==> post.channels.has_channel(k) == pre.channels.has_channel(k)
            }
            &&& d.protocol_version matches Some(pv) && pv@ == negotiated_version(m, &init)
            &&& d.response matches Some(resp) && {
                &&& id_or_unknown(&m.id, &resp.id)
                &&& resp.outcome matches Ok(RpcPayload::Init(ir)) && {
                    &&& ir.protocol_version@ == negotiated_version(m, &init)
                    &&& ir.server_name == init.server_name
                    &&& ir.instructions == init.instructions
                    &&& ir.instance_names == init.instance_names
                }
            }
        },
        _ => false,
    }))
    // initialized: mark the named session active, answer 202
    &&& ((match body {
        BodyShape::Valid(m) => m.method@ == "initialized"@,
        _ => false,
    }) ==> (r matches Ok(DispatchStep::Done(d)) && d.status == 202 && d.response is None
        && d.new_session is None) && {
        match session_id {
            Some(sid) => {
                &&& post.sessions.contains_id(sid) == pre.sessions.contains_id(sid)
                &&& pre.sessions.contains_id(sid) ==> {
                    &&& post.sessions.value_of(sid).initialized
                    &&& post.sessions.value_of(sid).protocol_version == pre.sessions.value_of(
                        sid,
                    ).protocol_version
                    &&& post.sessions.value_of(sid).event_counter == pre.sessions.value_of(
                        sid,
                    ).event_counter
                }
                &&& !pre.sessions.contains_id(sid) ==> post == pre
                &&& forall|k: Seq<char>|
                    k != sid ==> post.sessions.contains_id(k) == pre.sessions.contains_id(k)
                &&& forall|k: Seq<char>|
                    k != sid && pre.sessions.contains_id(k) ==> post.sessions.value_of(k)
                        == pre.sessions.value_of(k)
                &&& post.channels == pre.channels
            },
            None => post == pre,
        }
    })
    // the handshake gate: any other method against a known,
    // still-negotiating session is rejected in-protocol
    &&& ((match body {
        BodyShape::Valid(m) => m.method@ != "initialize"@ && m.method@ != "initialized"@,
        _ => false,
    }) && known_uninitialized(&pre, session_id) ==> post == pre && (match (&body, &r) {
        (BodyShape::Valid(m), Ok(DispatchStep::Done(d))) => {
            &&& d.status == 200
            &&& d.new_session is None
            &&& d.response matches Some(resp) && id_or_unknown(&m.id, &resp.id) && (
            resp.outcome matches Err(err) && err.code == CODE_SERVER_NOT_INITIALIZED
                && err.message@ == "Server not initialized"@)
        },
        _ => false,
    }))
    // a request with an id of the wrong JSON type is malformed
    &&& ((match body {
        BodyShape::Valid(m) => m.method@ != "initialize"@ && m.method@ != "initialized"@ && m.id
            is Invalid,
        _ => false,
    }) && !known_uninitialized(&pre, session_id) ==> (r matches Err(e) && e.status == 400))
    // everything else goes to the external handler
    &&& ((match body {
        BodyShape::Valid(m) => m.method@ != "initialize"@ && m.method@ != "initialized"@ && !(
        m.id is Invalid),
        _ => false,
    }) && !known_uninitialized(&pre, session_id) ==> post == pre && (match (&body, &r) {
        (BodyShape::Valid(m), Ok(DispatchStep::NeedHandler { method, params, id })) => {
            &&& method@ == m.method@
            &&& params == m.params
            &&& match (&m.id, id) {
                (IdField::Absent, None) => true,
                (IdField::Num(n), Some(RequestId::Num(k))) => k == n,
                (IdField::Str(s), Some(RequestId::Str(t))) => t@ == s@,
                _ => false,
            }
        },
        _ => false,
    }))
}

/// Interpret one inbound message.
///
/// `initialize` creates a session (still negotiating) and its push
/// channel and answers with the capability announcement; the session id
/// it returns was free beforehand — the astronomically unlikely clash of
/// random ids is answered with an internal error rather than by silently
/// reusing a live session. `initialized` marks the named session active.
/// Any other method against a known, still-negotiating session is
/// rejected with "server not initialized". What remains is handed to the
/// external handler: notifications best-effort, requests by id.
pub fn dispatch_begin(
    state: &mut TransportState,
    session_id: Option<&str>,
    body: BodyShape,
    init: InitSettings,
) -> (r: Result<DispatchStep, DispatchError>)
    requires
        old(state).wf(),
    ensures
        final(state).wf(),
        dispatch_post(*old(state), *final(state), session_id.deep_view(), body, init, r),
{
    proof {
        reveal_strlit("initialize");
        reveal_strlit("initialized");
        assert("initialize"@.len() == 10);
        assert("initialized"@.len() == 11);
    }
    let m = match body {
        BodyShape::NotObject => {
            return Err(DispatchError {
                status: 400,
                message: String::from_str("expected object"),
            });
        },
        BodyShape::NoMethod => {
            return Err(DispatchError {
                status: 400,
                message: String::from_str("missing method"),
            });
        },
        BodyShape::Valid(m) => m,
    };

    if str_eq(m.method.as_str(), "initialize") {
        let id = match m.id {
            IdField::Num(n) => RequestId::Num(n),
            IdField::Str(s) => RequestId::Str(s),
            IdField::Absent => {
                return Err(DispatchError {
                    status: 400,
                    message: String::from_str("initialize requires id"),
                });
            },
            IdField::Invalid => {
                return Err(DispatchError {
                    status: 400,
                    message: String::from_str("initialize id must be a number or string"),
                });
            },
        };
        let result = negotiate_initialize(
            m.requested_protocol_version,
            init.protocol_default,
            init.server_name,
            init.instructions,
            init.instance_names,
        );
        let sess = fresh_session_id();
        if state.sessions.contains(sess.as_str()) {
            proof {
                crate::registry::lemma_contains_nonempty(&state.sessions, sess@);
            }
            return Err(DispatchError {
                status: 500,
                message: String::from_str("session id collision"),
            });
        }
        let negotiated = result.protocol_version.clone();
        let echo_version = result.protocol_version.clone();
        state.sessions.insert(sess.clone(), SessionState::new(negotiated));
        let _ = state.channels.get_or_create(sess.as_str());
        let resp = JsonRpcResponse::success(id, RpcPayload::Init(result));
        return Ok(DispatchStep::Done(DispatchDone {
            new_session: Some(sess),
            response: Some(resp),
            status: 200,
            protocol_version: Some(echo_version),
        }));
    }

    if str_eq(m.method.as_str(), "initialized") {
        if let Some(sid) = session_id {
            let taken = state.sessions.take(sid);
            if let Some(mut st) = taken {
                st.initialized = true;
                state.sessions.insert(sid.to_owned(), st);
            }
        }
        return Ok(DispatchStep::Done(DispatchDone {
            new_session: None,
            response: None,
            status: 202,
            protocol_version: None,
        }));
    }

    let mut gated = false;
    if let Some(sid) = session_id {
        if let Some(st) = state.sessions.get(sid) {
            if !st.initialized {
                gated = true;
            }
        }
    }
    if gated {
        let id = match m.id {
            IdField::Num(n) => RequestId::Num(n),
            IdField::Str(s) => RequestId::Str(s),
            _ => RequestId::Str(String::from_str("unknown")),
        };
        let resp = JsonRpcResponse::error(
            id,
            CODE_SERVER_NOT_INITIALIZED,
            String::from_str("Server not initialized"),
        );
        return Ok(DispatchStep::Done(DispatchDone {
            new_session: None,
            response: Some(resp),
            status: 200,
            protocol_version: None,
        }));
    }

    match m.id {
        IdField::Absent => Ok(DispatchStep::NeedHandler {
            method: m.method,
            params: m.params,
            id: None,
        }),
        IdField::Invalid => Err(DispatchError {
            status: 400,
            message: String::from_str("id must be a number or string"),
        }),
        IdField::Num(n) => Ok(DispatchStep::NeedHandler {
            method: m.method,
            params: m.params,
            id: Some(RequestId::Num(n)),
        }),
        IdField::Str(s) => Ok(DispatchStep::NeedHandler {
            method: m.method,
            params: m.params,
            id: Some(RequestId::Str(s)),
        }),
    }
}

/// For every session, `initialize` precedes `initialized`: the
/// `initialized` notification never brings a session into existence —
/// only a successful `initialize` does — and any other method against a
/// known session that has not yet been activated is answered with a
/// "server not initialized" protocol error.
pub proof fn lemma_handshake_order(
    pre: TransportState,
    post: TransportState,
    session_id: Option<Seq<char>>,
    body: BodyShape,
    init: InitSettings,
    r: Result<DispatchStep, DispatchError>,
)
    requires
        dispatch_post(pre, post, session_id, body, init, r),
    ensures
        (match body {
            BodyShape::Valid(m) => m.method@ == "initialized"@,
            _ => false,
        }) ==> forall|k: Seq<char>|
            post.sessions.contains_id(k) == pre.sessions.contains_id(k),
        (match body {
            BodyShape::Valid(m) => m.method@ != "initialize"@ && m.method@ != "initialized"@,
            _ => false,
        }) && known_uninitialized(&pre, session_id) ==> (match r {
            Ok(DispatchStep::Done(d)) => d.status == 200 && (d.response matches Some(resp) && (
            resp.outcome matches Err(err) && err.code == CODE_SERVER_NOT_INITIALIZED)),
            _ => false,
        }),
{
    if body matches BodyShape::Valid(m) && m.method@ == "initialized"@ {
        match session_id {
            Some(sid) => {
                assert(forall|k: Seq<char>|
                    k != sid ==> post.sessions.contains_id(k) == pre.sessions.contains_id(k));
                assert(post.sessions.contains_id(sid) == pre.sessions.contains_id(sid));
            },
            None => {},
        }
    }
}

/// A successful `initialize` returns a session id that was absent from
/// the registry immediately before the call and present — still
/// negotiating, under the negotiated version, with its push channel —
/// immediately after it.
pub proof fn lemma_initialize_fresh_session(
    pre: TransportState,
    post: TransportState,
    session_id: Option<Seq<char>>,
    body: BodyShape,
    init: InitSettings,
    r: Result<DispatchStep, DispatchError>,
)
    requires
        dispatch_post(pre, post, session_id, body, init, r),
        body matches BodyShape::Valid(m) && m.method@ == "initialize"@ && (m.id is Num || m.id
            is Str),
        r matches Ok(DispatchStep::Done(d)),
    ensures
        (match r {
            Ok(DispatchStep::Done(d)) => d.new_session matches Some(ns)
                && !pre.sessions.contains_id(ns@) && post.sessions.contains_id(ns@)
                && !post.sessions.value_of(ns@).initialized && post.channels.has_channel(ns@),
            _ => false,
        }),
        (match (body, r) {
            (BodyShape::Valid(m), Ok(DispatchStep::Done(d))) => d.protocol_version matches Some(
                pv,
            ) && pv@ == negotiated_version(&m, &init),
            _ => false,
        }),
{
}

/// Complete an exchange after the external handler ran: a notification
/// is answered 202 with no body whatever the handler did; a request is
/// answered 200, the handler's result wrapped as a success and its
/// failure wrapped once as an internal protocol error.
pub fn dispatch_finish(id: Option<RequestId>, outcome: Result<String, String>) -> (r: DispatchDone)
    ensures
        r.new_session is None,
        r.protocol_version is None,
        id is None ==> r.status == 202 && r.response is None,
        id matches Some(i) ==> (r.status == 200 && (r.response matches Some(resp) && resp.id == i
            && match outcome {
            Ok(raw) => resp.outcome matches Ok(RpcPayload::Raw(t)) && t == raw,
            Err(msg) => resp.outcome matches Err(err) && err.code == CODE_INTERNAL_ERROR
                && err.message == msg,
        })),
{
    match id {
        None => DispatchDone {
            new_session: None,
            response: None,
            status: 202,
            protocol_version: None,
        },
        Some(i) => {
            let resp = match outcome {
                Ok(raw) => JsonRpcResponse::success(i, RpcPayload::Raw(raw)),
                Err(msg) => JsonRpcResponse::error(i, CODE_INTERNAL_ERROR, msg),
            };
            DispatchDone {
                new_session: None,
                response: Some(resp),
                status: 200,
                protocol_version: None,
            }
        },
    }
}

} // verus!
