//! Decision kernels of the configuration UI service: credential
//! verification, login-session bookkeeping with expiry, bearer-token
//! extraction, and the environment-file editing rules. The HTTP
//! endpoints and the file writes themselves live outside this crate.

use vstd::prelude::*;

use crate::registry::StrTable;
use crate::strutil::{has_prefix, str_strip_prefix, str_trim};

verus! {

/// Credentials protecting the configuration UI; disabled unless both a
/// username and a password are configured.
pub struct AuthConfig {
    pub username: String,
    pub password: String,
    pub enabled: bool,
}

impl AuthConfig {
    /// Build the policy from raw environment values; absent values
    /// count as empty, and empty credentials disable authentication.
    pub fn from_values(username: Option<String>, password: Option<String>) -> (r: AuthConfig)
        ensures
            r.username@ == match username {
                Some(u) => u@,
                None => Seq::<char>::empty(),
            },
            r.password@ == match password {
                Some(p) => p@,
                None => Seq::<char>::empty(),
            },
            r.enabled == (r.username@.len() > 0 && r.password@.len() > 0),
    {
        let username = match username {
            Some(u) => u,
            None => String::new(),
        };
        let password = match password {
            Some(p) => p,
            None => String::new(),
        };
        let enabled = username.as_str().unicode_len() > 0 && password.as_str().unicode_len() > 0;
        AuthConfig { username, password, enabled }
    }

    /// Do the presented credentials match? Always false when
    /// authentication is disabled.
    pub fn verify(&self, username: &str, password: &str) -> (r: bool)
        ensures
            r == (self.enabled && self.username@ == username@ && self.password@ == password@),
    {
        self.enabled && crate::strutil::str_eq(self.username.as_str(), username)
            && crate::strutil::str_eq(self.password.as_str(), password)
    }
}

/// Relies on rand::random and hex::encode: 32 bytes drawn from the
/// thread's generator, encoded as exactly two lowercase hex digits per
/// byte. Randomness promises nothing further about the value.
#[verifier::external_body]
fn random_hex_token() -> (r: String)
    ensures
        r@.len() == 64,
{
    hex::encode(rand::random::<[u8; 32]>())
}

/// Mint a login-session token.
pub fn generate_session_token() -> (r: String)
    ensures
        r@.len() == 64,
{
    random_hex_token()
}

/// Mint a bearer token for the protocol transport.
pub fn generate_mcp_token() -> (r: String)
    ensures
        r@.len() == 64,
{
    random_hex_token()
}

/// Pull the bearer token out of an `Authorization` header value.
pub fn extract_token(auth_header: Option<&str>) -> (r: Option<String>)
    ensures
        match auth_header {
            None => r is None,
            Some(h) => match r {
                Some(t) => has_prefix(h@, "Bearer "@) && h@ == "Bearer "@ + t@,
                None => !has_prefix(h@, "Bearer "@),
            },
        },
{
    match auth_header {
        None => None,
        Some(h) => str_strip_prefix(h, "Bearer "),
    }
}

/// One login session: who logged in and when the session lapses
/// (seconds on the same clock `now` values are read from).
pub struct SessionInfo {
    pub username: String,
    pub expires_at: u64,
}

/// A login session is live when its expiry lies in the future.
pub open spec fn session_live(info: SessionInfo, now: u64) -> bool {
    info.expires_at > now
}

/// The outcome of a login attempt.
pub enum LoginOutcome {
    /// Authentication is not configured: 400.
    NotConfigured,
    /// Wrong username or password: 401.
    InvalidCredentials,
    /// Logged in; the freshly minted session token.
    LoggedIn { token: String },
}

/// Attempt a login: with auth unconfigured fail closed, with wrong
/// credentials refuse, else mint a token and record the session until
/// `now + session_duration`.
pub fn login(
    sessions: &mut StrTable<SessionInfo>,
    auth: &AuthConfig,
    username: &str,
    password: &str,
    now: u64,
    session_duration: u64,
) -> (r: LoginOutcome)
    requires
        old(sessions).wf(),
        now + session_duration <= u64::MAX,
    ensures
        final(sessions).wf(),
        !auth.enabled ==> (r is NotConfigured && *final(sessions) == *old(sessions)),
        auth.enabled && !(auth.username@ == username@ && auth.password@ == password@) ==> (r
            is InvalidCredentials && *final(sessions) == *old(sessions)),
        auth.enabled && auth.username@ == username@ && auth.password@ == password@ ==> (r matches
            LoginOutcome::LoggedIn { token } && {
            &&& final(sessions).contains_id(token@)
            &&& final(sessions).value_of(token@).username@ == username@
            &&& final(sessions).value_of(token@).expires_at == now + session_duration
            &&& forall|k: Seq<char>|
                k != token@ ==> final(sessions).contains_id(k) == old(sessions).contains_id(k)
            &&& forall|k: Seq<char>|
                k != token@ && old(sessions).contains_id(k) ==> final(sessions).value_of(k)
                    == old(sessions).value_of(k)
        }),
{
    if !auth.enabled {
        return LoginOutcome::NotConfigured;
    }
    if !auth.verify(username, password) {
        return LoginOutcome::InvalidCredentials;
    }
    let token = generate_session_token();
    let info = SessionInfo { username: username.to_owned(), expires_at: now + session_duration };
    sessions.insert(token.clone(), info);
    LoginOutcome::LoggedIn { token }
}

/// Drop the session the `Authorization` header names, if any; returns
/// whether one was removed.
pub fn logout(sessions: &mut StrTable<SessionInfo>, auth_header: Option<&str>) -> (removed: bool)
    requires
        old(sessions).wf(),
    ensures
        final(sessions).wf(),
        removed ==> final(sessions).spec_len() + 1 == old(sessions).spec_len(),
        !removed ==> *final(sessions) == *old(sessions),
{
    match extract_token(auth_header) {
        Some(token) => sessions.take(token.as_str()).is_some(),
        None => false,
    }
}

/// The user behind a request: the session named by the header, when it
/// exists and has not lapsed.
pub fn authenticated_user(
    sessions: &StrTable<SessionInfo>,
    auth_header: Option<&str>,
    now: u64,
) -> (r: Option<String>)
    requires
        sessions.wf(),
    ensures
        match r {
            Some(username) => exists|t: Seq<char>|
                #![trigger sessions.value_of(t)]
                sessions.contains_id(t) && session_live(sessions.value_of(t), now)
                    && sessions.value_of(t).username@ == username@,
            None => true,
        },
{
    let token = match extract_token(auth_header) {
        Some(t) => t,
        None => {
            return None;
        },
    };
    match sessions.get(token.as_str()) {
        Some(info) => if info.expires_at > now {
            proof {
                assert(sessions.contains_id(token@) && session_live(
                    sessions.value_of(token@),
                    now,
                ));
            }
            Some(info.username.clone())
        } else {
            None
        },
        None => None,
    }
}

/// What the public status endpoint reports.
pub struct AuthStatus {
    pub authenticated: bool,
    pub auth_enabled: bool,
    pub username: Option<String>,
}

/// The status report for one request: with auth disabled everyone
/// counts as authenticated; otherwise the live session decides.
pub fn auth_status(
    sessions: &StrTable<SessionInfo>,
    auth: &AuthConfig,
    auth_header: Option<&str>,
    now: u64,
) -> (r: AuthStatus)
    requires
        sessions.wf(),
    ensures
        r.auth_enabled == auth.enabled,
        !auth.enabled ==> r.authenticated && r.username is None,
        auth.enabled ==> r.authenticated == r.username is Some,
{
    if !auth.enabled {
        return AuthStatus { authenticated: true, auth_enabled: false, username: None };
    }
    match authenticated_user(sessions, auth_header, now) {
        Some(username) => AuthStatus {
            authenticated: true,
            auth_enabled: true,
            username: Some(username),
        },
        None => AuthStatus { authenticated: false, auth_enabled: true, username: None },
    }
}

/// What the token-status endpoint reports: whether transport auth is
/// switched on, and whether a non-blank token is configured.
pub fn token_status(enabled_raw: Option<String>, token_raw: Option<String>) -> (r: (bool, bool))
    ensures
        r.0 == match enabled_raw {
            Some(v) => crate::strutil::eq_ignore_ascii_case_seq(v@, "true"@) || v@ == "1"@,
            None => false,
        },
        r.1 == match token_raw {
            Some(t) => crate::strutil::trim_spec(t@).len() > 0,
            None => false,
        },
{
    let enabled = match &enabled_raw {
        Some(v) => crate::strutil::str_eq_ignore_ascii_case(v.as_str(), "true")
            || crate::strutil::str_eq(v.as_str(), "1"),
        None => false,
    };
    let token_configured = match &token_raw {
        Some(t) => str_trim(t.as_str()).as_str().unicode_len() > 0,
        None => false,
    };
    (enabled, token_configured)
}

/// Is a proposed password long enough?
pub fn password_acceptable(new_password: &str) -> (r: bool)
    ensures
        r == (new_password@.len() >= 4),
{
    new_password.unicode_len() >= 4
}

/// The lines of `s`: the split segments, without the empty segment a
/// trailing newline leaves behind.
pub open spec fn lines_spec(s: Seq<char>) -> Seq<Seq<char>> {
    let raw = crate::strutil::split_sep_spec(s, '\n');
    if raw.last().len() == 0 {
        raw.drop_last()
    } else {
        raw
    }
}

/// Lines joined back with single newlines.
pub open spec fn join_lines_spec(ls: Seq<Seq<char>>) -> Seq<char>
    decreases ls.len(),
{
    if ls.len() == 0 {
        Seq::empty()
    } else if ls.len() == 1 {
        ls[0]
    } else {
        ls[0] + seq!['\n'] + join_lines_spec(ls.skip(1))
    }
}

/// A line that sets `key`, possibly commented out: once trimmed it
/// starts with `key=`, `# key=` or `#key=`.
pub open spec fn env_line_matches(line: Seq<char>, key: Seq<char>) -> bool {
    let t = crate::strutil::trim_spec(line);
    ||| has_prefix(t, key + seq!['='])
    ||| has_prefix(t, seq!['#', ' '] + key + seq!['='])
    ||| has_prefix(t, seq!['#'] + key + seq!['='])
}

/// The lines with the first line setting `key` replaced by `kv`, or
/// `kv` appended when no line sets it.
pub open spec fn upsert_lines_spec(ls: Seq<Seq<char>>, key: Seq<char>, kv: Seq<char>) -> Seq<
    Seq<char>,
>
    decreases ls.len(),
{
    if ls.len() == 0 {
        seq![kv]
    } else if env_line_matches(ls[0], key) {
        seq![kv] + ls.skip(1)
    } else {
        seq![ls[0]] + upsert_lines_spec(ls.skip(1), key, kv)
    }
}

/// What the environment file holds after setting `key` to `value`:
/// the first line for `key` (set or commented out) replaced by
/// `key=value`, or that line appended, and a final newline.
pub open spec fn updated_env_spec(content: Seq<char>, key: Seq<char>, value: Seq<char>) -> Seq<
    char,
> {
    join_lines_spec(upsert_lines_spec(lines_spec(content), key, key + seq!['='] + value)) + seq![
        '\n',
    ]
}

/// Appending a line extends the join with a newline and that line.
proof fn lemma_join_snoc(ls: Seq<Seq<char>>, x: Seq<char>)
    requires
        ls.len() >= 1,
    ensures
        join_lines_spec(ls.push(x)) == join_lines_spec(ls) + seq!['\n'] + x,
    decreases ls.len(),
{
    let ext = ls.push(x);
    if ls.len() == 1 {
        assert(ext.len() == 2);
        assert(ext[0] == ls[0]);
        assert(ext.skip(1) =~= seq![x]);
        assert(join_lines_spec(ext.skip(1)) == x);
    } else {
        assert(ext.skip(1) =~= ls.skip(1).push(x));
        lemma_join_snoc(ls.skip(1), x);
        assert(ext[0] == ls[0]);
        assert(join_lines_spec(ext) == ls[0] + seq!['\n'] + (join_lines_spec(ls.skip(1)) + seq![
            '\n',
        ] + x));
        assert(ls[0] + seq!['\n'] + (join_lines_spec(ls.skip(1)) + seq!['\n'] + x) =~= (ls[0]
            + seq!['\n'] + join_lines_spec(ls.skip(1))) + seq!['\n'] + x);
    }
}

/// Join lines back with single newlines.
#[verifier::loop_isolation(false)]
fn join_lines(lines: &Vec<String>) -> (r: String)
    requires
        lines@.len() >= 1,
    ensures
        r@ == join_lines_spec(lines.deep_view()),
{
    let mut r: String = lines[0].clone();
    let n = lines.len();
    let mut i: usize = 1;
    proof {
        assert(lines.deep_view().take(1) =~= seq![lines@[0]@]);
    }
    while i < n
        invariant
            1 <= i <= n,
            r@ == join_lines_spec(lines.deep_view().take(i as int)),
        decreases n - i,
    {
        let ghost prefix = lines.deep_view().take(i as int);
        r.append("\n");
        r.append(lines[i].as_str());
        proof {
            reveal_strlit("\n");
            assert("\n"@ =~= seq!['\n']);
            lemma_join_snoc(prefix, lines.deep_view()[i as int]);
            assert(lines.deep_view().take(i + 1) =~= prefix.push(lines.deep_view()[i as int]));
        }
        i += 1;
    }
    proof {
        assert(lines.deep_view().take(n as int) =~= lines.deep_view());
    }
    r
}

/// Does this line set (or comment out) `key`?
fn line_matches(line: &str, key: &str) -> (r: bool)
    ensures
        r == env_line_matches(line@, key@),
{
    let t = str_trim(line);
    let p1 = String::from_str(key).concat("=");
    let p2 = String::from_str("# ").concat(key).concat("=");
    let p3 = String::from_str("#").concat(key).concat("=");
    proof {
        reveal_strlit("=");
        reveal_strlit("# ");
        reveal_strlit("#");
        assert(p1@ =~= key@ + seq!['=']);
        assert(p2@ =~= seq!['#', ' '] + key@ + seq!['=']);
        assert(p3@ =~= seq!['#'] + key@ + seq!['=']);
    }
    crate::strutil::str_has_prefix(t.as_str(), p1.as_str()) || crate::strutil::str_has_prefix(
        t.as_str(),
        p2.as_str(),
    ) || crate::strutil::str_has_prefix(t.as_str(), p3.as_str())
}

/// With the first matching line at `i`, the upsert replaces exactly it.
proof fn lemma_upsert_found(ls: Seq<Seq<char>>, key: Seq<char>, kv: Seq<char>, i: int)
    requires
        0 <= i < ls.len(),
        env_line_matches(ls[i], key),
        forall|j: int| 0 <= j < i ==> !env_line_matches(ls[j], key),
    ensures
        upsert_lines_spec(ls, key, kv) == ls.take(i) + seq![kv] + ls.skip(i + 1),
    decreases i,
{
    if i == 0 {
        assert(upsert_lines_spec(ls, key, kv) =~~= ls.take(0) + seq![kv] + ls.skip(1));
    } else {
        lemma_upsert_found(ls.skip(1), key, kv, i - 1);
        assert(ls.skip(1).take(i - 1) =~= ls.skip(1).take(i - 1));
        assert(upsert_lines_spec(ls, key, kv) == seq![ls[0]] + upsert_lines_spec(
            ls.skip(1),
            key,
            kv,
        ));
        assert(seq![ls[0]] + (ls.skip(1).take(i - 1) + seq![kv] + ls.skip(1).skip(i)) =~~= ls.take(
            i,
        ) + seq![kv] + ls.skip(i + 1));
    }
}

/// With no matching line, the upsert appends the new line.
proof fn lemma_upsert_none(ls: Seq<Seq<char>>, key: Seq<char>, kv: Seq<char>)
    requires
        forall|j: int| 0 <= j < ls.len() ==> !env_line_matches(ls[j], key),
    ensures
        upsert_lines_spec(ls, key, kv) == ls.push(kv),
    decreases ls.len(),
{
    if ls.len() == 0 {
        assert(upsert_lines_spec(ls, key, kv) =~~= ls.push(kv));
    } else {
        lemma_upsert_none(ls.skip(1), key, kv);
        assert(seq![ls[0]] + ls.skip(1).push(kv) =~~= ls.push(kv));
    }
}

/// The new content of the environment file after setting `key` to
/// `value`: the first line that sets or comments out `key` is replaced
/// by `key=value`, or such a line is appended, and the file keeps a
/// final newline.
#[verifier::loop_isolation(false)]
pub fn updated_env_content(content: &str, key: &str, value: &str) -> (r: String)
    ensures
        r@ == updated_env_spec(content@, key@, value@),
{
    let mut lines = crate::strutil::split_sep(content, '\n');
    proof {
        crate::strutil::lemma_split_sep_nonempty(content@, '\n');
    }
    if lines[lines.len() - 1].as_str().unicode_len() == 0 {
        let _ = lines.pop();
    }
    proof {
        assert(lines.deep_view() =~~= lines_spec(content@));
    }
    let kv = String::from_str(key).concat("=").concat(value);
    proof {
        reveal_strlit("=");
        assert(kv@ =~= key@ + seq!['='] + value@);
    }

    let n = lines.len();
    let mut found: Option<usize> = None;
    let mut i: usize = 0;
    while i < n
        invariant
            i <= n,
            n == lines@.len(),
            match found {
                Some(fi) => fi < i && env_line_matches(lines.deep_view()[fi as int], key@)
                    && forall|j: int|
                    0 <= j < fi ==> !env_line_matches(lines.deep_view()[j], key@),
                None => forall|j: int|
                    0 <= j < i ==> !env_line_matches(lines.deep_view()[j], key@),
            },
        decreases n - i,
    {
        if matches!(found, None) {
            if line_matches(lines[i].as_str(), key) {
                found = Some(i);
            }
        }
        i += 1;
    }

    let ghost pre = lines.deep_view();
    match found {
        Some(fi) => {
            let _ = lines.remove(fi);
            lines.insert(fi, kv);
            proof {
                lemma_upsert_found(pre, key@, kv@, fi as int);
                assert(lines.deep_view() =~~= pre.take(fi as int) + seq![kv@] + pre.skip(
                    fi + 1,
                ));
            }
        },
        None => {
            lines.push(kv);
            proof {
                lemma_upsert_none(pre, key@, kv@);
                assert(lines.deep_view() =~~= pre.push(kv@));
            }
        },
    }

    let joined = join_lines(&lines);
    let r = joined.concat("\n");
    proof {
        reveal_strlit("\n");
        assert(r@ =~= updated_env_spec(content@, key@, value@));
    }
    r
}

} // verus!
