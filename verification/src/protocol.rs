//! Protocol-wide constants and the JSON-RPC message model: request ids,
//! response envelopes and the error codes this transport emits.

use vstd::prelude::*;

verus! {

/// Version assumed when a client names none (backward compatibility).
pub open spec fn default_protocol_version_spec() -> Seq<char> {
    "2025-03-26"@
}

/// Newest protocol version this server speaks.
pub open spec fn current_protocol_version_spec() -> Seq<char> {
    "2025-11-05"@
}

/// The protocol versions this server recognizes.
pub open spec fn known_protocol_version(v: Seq<char>) -> bool {
    v == "2024-11-05"@ || v == "2025-03-26"@ || v == "2025-11-05"@
}

pub fn default_protocol_version() -> (s: &'static str)
    ensures
        s@ == default_protocol_version_spec(),
{
    "2025-03-26"
}

pub fn current_protocol_version() -> (s: &'static str)
    ensures
        s@ == current_protocol_version_spec(),
{
    "2025-11-05"
}

/// The liveness verdict reported by the health endpoint, from whether
/// any backend instance was reachable and whether any was not.
pub fn health_status(any_reachable: bool, any_unreachable: bool) -> (s: &'static str)
    ensures
        !any_unreachable ==> s@ == "ok"@,
        any_unreachable && any_reachable ==> s@ == "degraded"@,
        any_unreachable && !any_reachable ==> s@ == "unhealthy"@,
{
    if !any_unreachable {
        "ok"
    } else if any_reachable {
        "degraded"
    } else {
        "unhealthy"
    }
}

/// JSON-RPC error code: the request was malformed.
pub const CODE_INVALID_REQUEST: i64 = -32600;

/// JSON-RPC error code: the handler failed internally.
pub const CODE_INTERNAL_ERROR: i64 = -32603;

/// JSON-RPC error code: a method arrived before the handshake finished.
pub const CODE_SERVER_NOT_INITIALIZED: i64 = -32002;

/// A JSON-RPC request id: a number or a string.
pub enum RequestId {
    Num(i64),
    Str(String),
}

impl RequestId {
    /// Structural equality of two ids.
    pub open spec fn same_as(&self, other: &RequestId) -> bool {
        match (self, other) {
            (RequestId::Num(a), RequestId::Num(b)) => a == b,
            (RequestId::Str(a), RequestId::Str(b)) => a@ == b@,
            _ => false,
        }
    }
}

impl Clone for RequestId {
    fn clone(&self) -> (r: Self)
        ensures
            r.same_as(self),
    {
        match self {
            RequestId::Num(n) => RequestId::Num(*n),
            RequestId::Str(s) => RequestId::Str(s.clone()),
        }
    }
}

/// A protocol-level error carried inside a JSON-RPC envelope.
pub struct RpcError {
    pub code: i64,
    pub message: String,
}

/// What a successful response carries.
pub enum RpcPayload {
    /// The structured result of an `initialize` request.
    Init(InitializeResult),
    /// An opaque result produced by the external handler (JSON text).
    Raw(String),
}

/// A JSON-RPC response envelope referencing the request that caused it.
pub struct JsonRpcResponse {
    pub id: RequestId,
    pub outcome: Result<RpcPayload, RpcError>,
}

impl JsonRpcResponse {
    /// Wrap a handler result as a protocol success.
    pub fn success(id: RequestId, payload: RpcPayload) -> (r: JsonRpcResponse)
        ensures
            r.id == id,
            r.outcome == Result::<RpcPayload, RpcError>::Ok(payload),
    {
        JsonRpcResponse { id, outcome: Ok(payload) }
    }

    /// Wrap an error code and message as a protocol error.
    pub fn error(id: RequestId, code: i64, message: String) -> (r: JsonRpcResponse)
        ensures
            r.id == id,
            r.outcome matches Err(e) && e.code == code && e.message == message,
    {
        JsonRpcResponse { id, outcome: Err(RpcError { code, message }) }
    }
}

/// The capability announcement returned by a successful `initialize`.
pub struct InitializeResult {
    /// The negotiated protocol version, echoed in the body and headers.
    pub protocol_version: String,
    /// Server display name advertised under `serverInfo`.
    pub server_name: String,
    /// Free-text usage instructions for the client.
    pub instructions: String,
    /// Named backend instances advertised under the capabilities.
    pub instance_names: Vec<String>,
}

/// Negotiate the protocol version for a new session: the version the
/// client asked for when the server recognizes it, or the configured
/// default when the request named none or an unrecognized one.
pub fn negotiate_initialize(
    requested_version: Option<String>,
    protocol_default: String,
    server_name: String,
    instructions: String,
    instance_names: Vec<String>,
) -> (r: InitializeResult)
    ensures
        r.protocol_version@ == match requested_version {
            Some(v) => if known_protocol_version(v@) {
                v@
            } else {
                protocol_default@
            },
            None => protocol_default@,
        },
        r.server_name == server_name,
        r.instructions == instructions,
        r.instance_names == instance_names,
{
    let protocol_version = match requested_version {
        Some(v) => {
            let recognized = crate::strutil::str_eq(v.as_str(), "2024-11-05")
                || crate::strutil::str_eq(v.as_str(), "2025-03-26")
                || crate::strutil::str_eq(v.as_str(), "2025-11-05");
            if recognized {
                v
            } else {
                protocol_default
            }
        },
        None => protocol_default,
    };
    InitializeResult { protocol_version, server_name, instructions, instance_names }
}

} // verus!
