//! The security validation pipeline: origin, bearer-token and
//! protocol-version checks that gate every non-public endpoint.

use vstd::prelude::*;

use crate::protocol::{current_protocol_version_spec, known_protocol_version};
use crate::strutil::{contains_seq, eq_ignore_ascii_case_seq, has_prefix};
use crate::strutil::{str_contains, str_eq, str_eq_ignore_ascii_case, str_strip_prefix};

verus! {

/// Origin policy. `None` disables validation; `Some(vec![])` allows
/// localhost only; a non-empty list allows its entries and localhost.
pub struct SecurityConfig {
    pub allowed_origins: Option<Vec<String>>,
}

/// Bearer-token policy. With `enabled` false every request passes; with
/// `enabled` true and no token configured every request fails closed.
pub struct AuthConfig {
    pub bearer_token: Option<String>,
    pub enabled: bool,
}

/// An origin value that refers to the local machine.
pub open spec fn is_localhost_origin(o: Seq<char>) -> bool {
    contains_seq(o, "localhost"@) || contains_seq(o, "127.0.0.1"@) || contains_seq(o, "[::1]"@)
}

/// Whether a request with the given `Origin` header passes the policy.
pub open spec fn origin_passes(allowed: Option<Seq<Seq<char>>>, origin: Option<Seq<char>>) -> bool {
    match allowed {
        None => true,
        Some(list) => match origin {
            None => true,
            Some(o) => is_localhost_origin(o) || (list.len() > 0 && list.contains(o)),
        },
    }
}

impl SecurityConfig {
    /// The allow-list as a sequence of character sequences.
    pub open spec fn origins(&self) -> Option<Seq<Seq<char>>> {
        self.allowed_origins.deep_view()
    }

    /// Build the policy from the raw environment value: absent means
    /// validation disabled; otherwise the parsed allow-list entries.
    pub fn from_origin_list(allowed_origins: Option<Vec<String>>) -> (r: SecurityConfig)
        ensures
            r.allowed_origins == allowed_origins,
    {
        SecurityConfig { allowed_origins }
    }
}

/// The allow-list entries found in a raw comma-separated value: each
/// segment trimmed, empty segments dropped.
pub open spec fn origins_of(parts: Seq<Seq<char>>) -> Seq<Seq<char>>
    decreases parts.len(),
{
    if parts.len() == 0 {
        Seq::empty()
    } else {
        let t = crate::strutil::trim_spec(parts[0]);
        (if t.len() > 0 {
            seq![t]
        } else {
            Seq::<Seq<char>>::empty()
        }) + origins_of(parts.skip(1))
    }
}

/// What a raw `MCP_ALLOWED_ORIGINS` value parses to.
pub open spec fn origin_list_spec(raw: Seq<char>) -> Seq<Seq<char>> {
    origins_of(crate::strutil::split_sep_spec(raw, ','))
}

/// Parse a comma-separated allow-list: split on commas, trim each
/// entry, drop empty entries.
#[verifier::loop_isolation(false)]
pub fn parse_origin_list(raw: &str) -> (r: Vec<String>)
    ensures
        r.deep_view() == origin_list_spec(raw@),
{
    let parts = crate::strutil::split_sep(raw, ',');
    let ghost all = parts.deep_view();
    let mut out: Vec<String> = Vec::new();
    let n = parts.len();
    let mut i: usize = 0;
    proof {
        assert(all.skip(0) =~~= all);
        assert(out.deep_view() + origins_of(all) =~~= origins_of(all));
    }
    while i < n
        invariant
            i <= n,
            n == parts@.len(),
            parts.deep_view() == all,
            origins_of(all) =~~= out.deep_view() + origins_of(all.skip(i as int)),
        decreases n - i,
    {
        let t = crate::strutil::str_trim(parts[i].as_str());
        if t.as_str().unicode_len() > 0 {
            out.push(t);
        }
        proof {
            assert(all.skip(i as int)[0] == all[i as int]);
            assert(all.skip(i as int).skip(1) =~~= all.skip(i + 1));
            assert(origins_of(all.skip(i as int)) == (if crate::strutil::trim_spec(
                all[i as int],
            ).len() > 0 {
                seq![crate::strutil::trim_spec(all[i as int])]
            } else {
                Seq::<Seq<char>>::empty()
            }) + origins_of(all.skip(i + 1)));
            assert(origins_of(all) =~~= out.deep_view() + origins_of(all.skip(i + 1)));
        }
        i += 1;
    }
    proof {
        assert(all.skip(n as int) =~~= Seq::<Seq<char>>::empty());
        assert(origins_of(all) =~~= out.deep_view());
    }
    out
}

/// A rejected origin: HTTP 403 with a protocol-shaped error body.
#[derive(Debug)]
pub struct OriginError {
    pub message: String,
}

impl OriginError {
    /// The HTTP status an origin rejection maps to.
    pub fn status(&self) -> (s: u16)
        ensures
            s == 403,
    {
        403
    }
}

/// Is this origin string one of localhost's spellings?
fn origin_is_localhost(o: &str) -> (r: bool)
    ensures
        r == is_localhost_origin(o@),
{
    str_contains(o, "localhost") || str_contains(o, "127.0.0.1") || str_contains(o, "[::1]")
}

/// Validate the `Origin` header against the configured policy.
///
/// Passes when validation is disabled or the header is absent; otherwise
/// the origin must be localhost or (with a non-empty allow-list) an exact
/// entry of the list.
#[verifier::loop_isolation(false)]
pub fn validate_origin(origin: Option<&str>, security: &SecurityConfig) -> (r: Result<
    (),
    OriginError,
>)
    ensures
        r.is_ok() == origin_passes(security.origins(), origin.deep_view()),
        r matches Err(e) ==> e.message@ == match security.allowed_origins {
            Some(list) => if list@.len() == 0 {
                "Origin not allowed: only localhost permitted"@
            } else {
                "Origin not allowed: "@ + origin.deep_view().unwrap()
            },
            None => Seq::<char>::empty(),
        },
{
    let allowed = match &security.allowed_origins {
        None => {
            return Ok(());
        },
        Some(list) => list,
    };
    let origin_str = match origin {
        None => {
            return Ok(());
        },
        Some(o) => o,
    };
    let is_localhost = origin_is_localhost(origin_str);
    if is_localhost {
        return Ok(());
    }
    if allowed.len() == 0 {
        return Err(OriginError {
            message: String::from_str("Origin not allowed: only localhost permitted"),
        });
    }
    let mut i: usize = 0;
    while i < allowed.len()
        invariant
            i <= allowed@.len(),
            forall|k: int| 0 <= k < i ==> allowed@[k]@ != origin_str@,
        decreases allowed@.len() - i,
    {
        if str_eq(allowed[i].as_str(), origin_str) {
            proof {
                assert(allowed.deep_view()[i as int] == origin_str@);
                assert(allowed.deep_view().contains(origin_str@));
            }
            return Ok(());
        }
        i += 1;
    }
    proof {
        assert(forall|k: int| 0 <= k < allowed.deep_view().len()
            ==> #[trigger] allowed.deep_view()[k] != origin_str@);
        assert(!allowed.deep_view().contains(origin_str@));
    }
    let msg = String::from_str("Origin not allowed: ").concat(origin_str);
    Err(OriginError { message: msg })
}

/// Why a request failed the bearer-token check.
#[derive(Debug)]
pub enum AuthError {
    /// Auth is enabled but no token is configured: fail closed, HTTP 500.
    NotConfigured,
    /// No `Authorization` header was sent: HTTP 401, `invalid_request`.
    MissingHeader,
    /// The header does not use the `Bearer` scheme: HTTP 401, `invalid_request`.
    NotBearer,
    /// The presented token does not match: HTTP 401, `invalid_token`.
    WrongToken,
}

impl AuthError {
    /// The HTTP status this failure maps to.
    pub fn status(&self) -> (s: u16)
        ensures
            s == 500 <==> self is NotConfigured,
            s == 401 <==> !(self is NotConfigured),
    {
        match self {
            AuthError::NotConfigured => 500,
            _ => 401,
        }
    }

    /// The machine-readable error code for the response body.
    pub fn error_code(&self) -> (s: &'static str)
        ensures
            self is NotConfigured ==> s@ == "server_error"@,
            self is MissingHeader ==> s@ == "invalid_request"@,
            self is NotBearer ==> s@ == "invalid_request"@,
            self is WrongToken ==> s@ == "invalid_token"@,
    {
        match self {
            AuthError::NotConfigured => "server_error",
            AuthError::MissingHeader => "invalid_request",
            AuthError::NotBearer => "invalid_request",
            AuthError::WrongToken => "invalid_token",
        }
    }
}

/// The auth decision the policy requires for a given header.
pub open spec fn auth_decision(
    enabled: bool,
    expected: Option<Seq<char>>,
    header: Option<Seq<char>>,
) -> Result<(), AuthError> {
    if !enabled {
        Ok(())
    } else {
        match expected {
            None => Err(AuthError::NotConfigured),
            Some(token) => match header {
                None => Err(AuthError::MissingHeader),
                Some(h) => if !has_prefix(h, "Bearer "@) {
                    Err(AuthError::NotBearer)
                } else if h.skip(7) == token {
                    Ok(())
                } else {
                    Err(AuthError::WrongToken)
                },
            },
        }
    }
}

impl AuthConfig {
    /// The expected token as a character sequence.
    pub open spec fn token_view(&self) -> Option<Seq<char>> {
        self.bearer_token.deep_view()
    }

    /// An auth policy that accepts every request.
    pub fn disabled() -> (r: AuthConfig)
        ensures
            !r.enabled,
            r.bearer_token is None,
    {
        AuthConfig { bearer_token: None, enabled: false }
    }

    /// Build the policy from raw environment values: enabled when the
    /// flag value spells "true" (any ASCII case) or "1"; an empty
    /// configured token counts as no token.
    pub fn from_values(enabled_raw: Option<String>, token_raw: Option<String>) -> (r: AuthConfig)
        ensures
            r.enabled == match enabled_raw {
                Some(v) => eq_ignore_ascii_case_seq(v@, "true"@) || v@ == "1"@,
                None => false,
            },
            r.token_view() == match token_raw {
                Some(t) => if t@.len() > 0 {
                    Some(t@)
                } else {
                    None
                },
                None => None::<Seq<char>>,
            },
    {
        let enabled = match &enabled_raw {
            Some(v) => str_eq_ignore_ascii_case(v.as_str(), "true") || str_eq(v.as_str(), "1"),
            None => false,
        };
        let bearer_token = match token_raw {
            Some(t) => if t.as_str().unicode_len() > 0 {
                Some(t)
            } else {
                None
            },
            None => None,
        };
        AuthConfig { bearer_token, enabled }
    }
}

/// Validate the `Authorization` header against the configured policy.
///
/// With auth disabled every request passes. With auth enabled the header
/// must present the exact configured token under the `Bearer` scheme;
/// a missing token configuration fails closed.
pub fn validate_auth(auth_header: Option<&str>, auth: &AuthConfig) -> (r: Result<(), AuthError>)
    ensures
        r == auth_decision(auth.enabled, auth.token_view(), auth_header.deep_view()),
{
    if !auth.enabled {
        return Ok(());
    }
    let expected_token = match &auth.bearer_token {
        None => {
            return Err(AuthError::NotConfigured);
        },
        Some(t) => t,
    };
    let header = match auth_header {
        None => {
            return Err(AuthError::MissingHeader);
        },
        Some(h) => h,
    };
    match str_strip_prefix(header, "Bearer ") {
        None => Err(AuthError::NotBearer),
        Some(token) => {
            proof {
                reveal_strlit("Bearer ");
                assert(header@.skip(7) =~= token@);
            }
            if str_eq(token.as_str(), expected_token.as_str()) {
                Ok(())
            } else {
                Err(AuthError::WrongToken)
            }
        },
    }
}

/// A rejected protocol version: HTTP 400 with an explanatory message.
#[derive(Debug)]
pub struct VersionError {
    pub message: String,
}

impl VersionError {
    /// The HTTP status a version rejection maps to.
    pub fn status(&self) -> (s: u16)
        ensures
            s == 400,
    {
        400
    }
}

/// Whether a request with the given version header passes: absent passes;
/// present must equal the expected version (the session's negotiated one,
/// or the server's current) or be a recognized historical version.
pub open spec fn version_passes(header: Option<Seq<char>>, expected: Option<Seq<char>>) -> bool {
    match header {
        None => true,
        Some(v) => {
            let want = match expected {
                Some(e) => e,
                None => current_protocol_version_spec(),
            };
            v == want || known_protocol_version(v)
        },
    }
}

/// Validate the protocol-version header against the session's negotiated
/// version (when a session is known) or the server's current version.
pub fn validate_protocol_version(version_header: Option<&str>, session_version: Option<&str>) -> (r:
    Result<(), VersionError>)
    ensures
        r.is_ok() == version_passes(version_header.deep_view(), session_version.deep_view()),
        r matches Err(e) ==> e.message@ == "Unsupported protocol version: "@
            + version_header.deep_view().unwrap(),
{
    let v = match version_header {
        None => {
            return Ok(());
        },
        Some(v) => v,
    };
    let expected = match session_version {
        Some(e) => e,
        None => crate::protocol::current_protocol_version(),
    };
    if str_eq(v, expected) || str_eq(v, "2024-11-05") || str_eq(v, "2025-03-26") || str_eq(
        v,
        "2025-11-05",
    ) {
        Ok(())
    } else {
        let msg = String::from_str("Unsupported protocol version: ").concat(v);
        Err(VersionError { message: msg })
    }
}

} // verus!
