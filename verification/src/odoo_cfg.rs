//! Backend instance configuration: which authentication mode an
//! instance uses, URL normalization, and the resolution of per-instance
//! credentials against process-wide fallbacks. Reading the environment
//! and parsing its JSON happen outside this crate; the rules applied to
//! the parsed values live here.

use vstd::prelude::*;

use crate::strutil::{
    contains_seq, find_char, str_contains, str_trim, trim_spec,
};

verus! {

/// Authentication mode for a backend instance: bearer token for newer
/// servers, username and password for older ones.
#[derive(Debug, Clone, Copy, PartialEq, Eq, Structural)]
pub enum OdooAuthMode {
    ApiKey,
    Password,
}

impl Default for OdooAuthMode {
    /// Token authentication is assumed when nothing says otherwise.
    fn default() -> (r: Self)
        ensures
            r == OdooAuthMode::ApiKey,
    {
        OdooAuthMode::ApiKey
    }
}

/// Is `c` a decimal digit?
pub open spec fn is_digit(c: char) -> bool {
    '0' <= c && c <= '9'
}

/// Every character of `s` is a decimal digit, and there is at least one.
pub open spec fn all_digits(s: Seq<char>) -> bool {
    s.len() > 0 && forall|i: int| 0 <= i < s.len() ==> is_digit(s[i])
}

/// The numeric value of one digit character.
pub open spec fn digit_val(c: char) -> nat {
    ((c as u32) - ('0' as u32)) as nat
}

/// The numeric value of a digit string.
pub open spec fn seq_digits_val(s: Seq<char>) -> nat
    decreases s.len(),
{
    if s.len() == 0 {
        0
    } else {
        seq_digits_val(s.drop_last()) * 10 + digit_val(s.last())
    }
}

/// A digit string's value only grows as digits are appended.
proof fn lemma_digits_val_prefix(s: Seq<char>, i: int)
    requires
        0 <= i <= s.len(),
    ensures
        seq_digits_val(s.take(i)) <= seq_digits_val(s),
    decreases s.len() - i,
{
    if i < s.len() {
        lemma_digits_val_prefix(s, i + 1);
        assert(s.take(i + 1).drop_last() =~= s.take(i));
        assert(seq_digits_val(s.take(i + 1)) == seq_digits_val(s.take(i)) * 10 + digit_val(
            s.take(i + 1).last(),
        ));
    } else {
        assert(s.take(i) =~= s);
    }
}

/// Parse a decimal number, accepting exactly non-empty all-digit
/// strings whose value fits.
#[verifier::loop_isolation(false)]
pub fn parse_u32(s: &str) -> (r: Option<u32>)
    ensures
        match r {
            Some(v) => all_digits(s@) && v == seq_digits_val(s@),
            None => !all_digits(s@) || seq_digits_val(s@) > u32::MAX,
        },
{
    let n = s.unicode_len();
    if n == 0 {
        return None;
    }
    let mut value: u32 = 0;
    let mut i: usize = 0;
    while i < n
        invariant
            i <= n,
            forall|j: int| 0 <= j < i ==> is_digit(s@[j]),
            value == seq_digits_val(s@.take(i as int)),
        decreases n - i,
    {
        let c = s.get_char(i);
        if !('0' <= c && c <= '9') {
            return None;
        }
        let d: u32 = c as u32 - 48;
        if value > (u32::MAX - d) / 10 {
            proof {
                assert(s@.take(i + 1).drop_last() =~= s@.take(i as int));
                assert(seq_digits_val(s@.take(i + 1)) == value * 10 + d);
                lemma_digits_val_prefix(s@, i + 1);
            }
            return None;
        }
        value = value * 10 + d;
        proof {
            assert(s@.take(i + 1).drop_last() =~= s@.take(i as int));
        }
        i += 1;
    }
    proof {
        assert(s@.take(n as int) =~= s@);
    }
    Some(value)
}

/// The characters of `s` before its first dot.
pub open spec fn up_to_dot_spec(s: Seq<char>) -> Seq<char>
    decreases s.len(),
{
    if s.len() == 0 {
        Seq::empty()
    } else if s[0] == '.' {
        Seq::empty()
    } else {
        seq![s[0]] + up_to_dot_spec(s.skip(1))
    }
}

/// When the first dot sits at `i` (or there is none and `i` is the
/// end), the prefix before the dot is exactly `s.take(i)`.
proof fn lemma_up_to_dot_at(s: Seq<char>, i: int)
    requires
        0 <= i <= s.len(),
        forall|j: int| 0 <= j < i ==> s[j] != '.',
        i == s.len() || s[i] == '.',
    ensures
        up_to_dot_spec(s) == s.take(i),
    decreases i,
{
    if s.len() == 0 {
        assert(s.take(i) =~= s);
    } else if i == 0 {
        assert(s.take(0) =~= Seq::<char>::empty());
    } else {
        lemma_up_to_dot_at(s.skip(1), i - 1);
        assert(seq![s[0]] + s.skip(1).take(i - 1) =~= s.take(i));
    }
}

/// The segment of a version string before its first dot.
fn version_major_segment(s: &str) -> (r: String)
    ensures
        r@ == up_to_dot_spec(s@),
{
    let n = s.unicode_len();
    match find_char(s, '.') {
        Some(i) => {
            let seg = s.substring_char(0, i).to_owned();
            proof {
                lemma_up_to_dot_at(s@, i as int);
            }
            seg
        },
        None => {
            proof {
                lemma_up_to_dot_at(s@, s@.len() as int);
                assert(s@.take(s@.len() as int) =~= s@);
            }
            s.to_owned()
        },
    }
}

/// A version string that names a major version below 19.
pub open spec fn version_pre_19(v: Seq<char>) -> bool {
    let seg = up_to_dot_spec(v);
    all_digits(seg) && seq_digits_val(seg) <= u32::MAX && seq_digits_val(seg) < 19
}

/// An optional string that is absent or blank once trimmed.
pub open spec fn blank_opt(o: Option<String>) -> bool {
    match o {
        Some(s) => trim_spec(s@).len() == 0,
        None => true,
    }
}

/// Configuration of one backend instance.
#[derive(Debug)]
pub struct OdooInstanceConfig {
    pub url: String,
    pub db: Option<String>,
    pub api_key: Option<String>,
    pub username: Option<String>,
    pub password: Option<String>,
    pub version: Option<String>,
    pub timeout_ms: Option<u64>,
    pub max_retries: Option<usize>,
}

/// The authentication mode an instance configuration selects: password
/// mode when the version is known to be pre-19, or when no usable token
/// is configured but a username and password are; token mode otherwise.
pub open spec fn auth_mode_spec(cfg: &OdooInstanceConfig) -> OdooAuthMode {
    if cfg.version matches Some(v) && version_pre_19(v@) {
        OdooAuthMode::Password
    } else if blank_opt(cfg.api_key) && cfg.username is Some && cfg.password is Some {
        OdooAuthMode::Password
    } else {
        OdooAuthMode::ApiKey
    }
}

/// Is this optional value absent or blank once trimmed?
fn opt_blank(o: &Option<String>) -> (r: bool)
    ensures
        r == blank_opt(*o),
{
    match o {
        Some(s) => {
            let t = str_trim(s.as_str());
            t.as_str().unicode_len() == 0
        },
        None => true,
    }
}

impl OdooInstanceConfig {
    /// Which authentication mode this configuration selects.
    pub fn auth_mode(&self) -> (r: OdooAuthMode)
        ensures
            r == auth_mode_spec(self),
    {
        if let Some(v) = &self.version {
            let seg = version_major_segment(v.as_str());
            if let Some(major) = parse_u32(seg.as_str()) {
                if major < 19 {
                    return OdooAuthMode::Password;
                }
            }
        }
        if opt_blank(&self.api_key) && self.username.is_some() && self.password.is_some() {
            return OdooAuthMode::Password;
        }
        OdooAuthMode::ApiKey
    }
}

/// What a raw URL normalizes to: trimmed, and given an `http://` scheme
/// when it names none.
pub open spec fn normalize_url_spec(raw: Seq<char>) -> Seq<char> {
    if contains_seq(trim_spec(raw), "://"@) {
        trim_spec(raw)
    } else {
        "http://"@ + trim_spec(raw)
    }
}

/// Trim a URL and prepend `http://` when it names no scheme.
pub fn normalize_url(raw: &str) -> (r: String)
    ensures
        r@ == normalize_url_spec(raw@),
{
    let trimmed = str_trim(raw);
    if str_contains(trimmed.as_str(), "://") {
        trimmed
    } else {
        String::from_str("http://").concat(trimmed.as_str())
    }
}

/// Process-wide fallback credentials applied to instances that name
/// none of their own.
pub struct GlobalCreds {
    pub api_key: Option<String>,
    pub username: Option<String>,
    pub password: Option<String>,
    pub version: Option<String>,
}

/// Why resolving the instance set failed.
#[derive(Debug, Clone, Copy, PartialEq, Eq, Structural)]
pub enum ResolveErrKind {
    /// No instance was configured at all.
    NoInstances,
    /// Token mode selected, but no token anywhere.
    MissingApiKey,
    /// Password mode selected, but no username anywhere.
    MissingUsername,
    /// Password mode selected, but no password anywhere.
    MissingPassword,
    /// Password mode selected, but no database named.
    MissingDb,
}

/// A resolution failure, naming the instance it arose on.
#[derive(Debug)]
pub struct ResolveError {
    pub instance: String,
    pub kind: ResolveErrKind,
}

impl ResolveError {
    /// The error text reported for this failure.
    pub fn message(&self) -> (r: String)
        ensures
            self.kind is NoInstances ==> r@
                == "No Odoo instances configured. Set ODOO_INSTANCES or ODOO_URL + credentials.\nFor Odoo 19+: ODOO_API_KEY\nFor Odoo < 19: ODOO_USERNAME + ODOO_PASSWORD + ODOO_VERSION"@,
            self.kind is MissingApiKey ==> r@ == "Missing apiKey for instance '"@
                + self.instance@
                + "'. Provide it in ODOO_INSTANCES or set ODOO_API_KEY."@,
            self.kind is MissingUsername ==> r@ == "Missing username for instance '"@
                + self.instance@
                + "'. Provide it in ODOO_INSTANCES or set ODOO_USERNAME."@,
            self.kind is MissingPassword ==> r@ == "Missing password for instance '"@
                + self.instance@
                + "'. Provide it in ODOO_INSTANCES or set ODOO_PASSWORD."@,
            self.kind is MissingDb ==> r@ == "Missing db for instance '"@ + self.instance@
                + "'. Database is required for Odoo < 19 (password auth)."@,
    {
        match self.kind {
            ResolveErrKind::NoInstances => String::from_str(
                "No Odoo instances configured. Set ODOO_INSTANCES or ODOO_URL + credentials.\nFor Odoo 19+: ODOO_API_KEY\nFor Odoo < 19: ODOO_USERNAME + ODOO_PASSWORD + ODOO_VERSION",
            ),
            ResolveErrKind::MissingApiKey => String::from_str("Missing apiKey for instance '")
                .concat(self.instance.as_str()).concat(
                "'. Provide it in ODOO_INSTANCES or set ODOO_API_KEY.",
            ),
            ResolveErrKind::MissingUsername => String::from_str(
                "Missing username for instance '",
            ).concat(self.instance.as_str()).concat(
                "'. Provide it in ODOO_INSTANCES or set ODOO_USERNAME.",
            ),
            ResolveErrKind::MissingPassword => String::from_str(
                "Missing password for instance '",
            ).concat(self.instance.as_str()).concat(
                "'. Provide it in ODOO_INSTANCES or set ODOO_PASSWORD.",
            ),
            ResolveErrKind::MissingDb => String::from_str("Missing db for instance '").concat(
                self.instance.as_str(),
            ).concat("'. Database is required for Odoo < 19 (password auth)."),
        }
    }
}

/// The instance configuration with the global version applied when it
/// names none of its own.
pub open spec fn with_default_version(cfg: OdooInstanceConfig, g: GlobalCreds)
    -> OdooInstanceConfig {
    if cfg.version is Some {
        cfg
    } else {
        OdooInstanceConfig { version: g.version, ..cfg }
    }
}

/// The failure, if any, that resolving this instance against the
/// globals runs into.
pub open spec fn resolve_err(cfg: OdooInstanceConfig, g: GlobalCreds)
    -> Option<ResolveErrKind> {
    let c = with_default_version(cfg, g);
    match auth_mode_spec(&c) {
        OdooAuthMode::ApiKey => if blank_opt(c.api_key) && g.api_key is None {
            Some(ResolveErrKind::MissingApiKey)
        } else {
            None
        },
        OdooAuthMode::Password => if blank_opt(c.username) && g.username is None {
            Some(ResolveErrKind::MissingUsername)
        } else if blank_opt(c.password) && g.password is None {
            Some(ResolveErrKind::MissingPassword)
        } else if blank_opt(c.db) {
            Some(ResolveErrKind::MissingDb)
        } else {
            None
        },
    }
}

/// How a successfully resolved instance relates to what was configured:
/// the URL normalized, the version defaulted, and the blank credential
/// the selected mode needs filled from the globals.
pub open spec fn resolved_fields(
    cfg: OdooInstanceConfig,
    g: GlobalCreds,
    out: OdooInstanceConfig,
) -> bool {
    let c = with_default_version(cfg, g);
    &&& out.url@ == normalize_url_spec(cfg.url@)
    &&& out.version == c.version
    &&& out.db == c.db
    &&& out.timeout_ms == c.timeout_ms
    &&& out.max_retries == c.max_retries
    &&& match auth_mode_spec(&c) {
        OdooAuthMode::ApiKey => {
            &&& out.api_key == if blank_opt(c.api_key) {
                g.api_key
            } else {
                c.api_key
            }
            &&& out.username == c.username
            &&& out.password == c.password
        },
        OdooAuthMode::Password => {
            &&& out.username == if blank_opt(c.username) {
                g.username
            } else {
                c.username
            }
            &&& out.password == if blank_opt(c.password) {
                g.password
            } else {
                c.password
            }
            &&& out.api_key == c.api_key
        },
    }
}

/// Clone an optional string.
fn clone_opt(o: &Option<String>) -> (r: Option<String>)
    ensures
        r == *o,
{
    match o {
        Some(s) => Some(s.clone()),
        None => None,
    }
}

/// Resolve one instance: normalize its URL, default its version, and
/// fill the credential its mode needs from the globals; fail with the
/// first missing credential.
pub fn resolve_instance(cfg: OdooInstanceConfig, g: &GlobalCreds) -> (r: Result<
    OdooInstanceConfig,
    ResolveErrKind,
>)
    ensures
        r.is_ok() == (resolve_err(cfg, *g) is None),
        r matches Ok(out) ==> resolved_fields(cfg, *g, out),
        r matches Err(k) ==> resolve_err(cfg, *g) == Some(k),
{
    let url = normalize_url(cfg.url.as_str());
    let version = match cfg.version {
        Some(v) => Some(v),
        None => clone_opt(&g.version),
    };
    let mut out = OdooInstanceConfig {
        url,
        db: cfg.db,
        api_key: cfg.api_key,
        username: cfg.username,
        password: cfg.password,
        version,
        timeout_ms: cfg.timeout_ms,
        max_retries: cfg.max_retries,
    };
    match out.auth_mode() {
        OdooAuthMode::ApiKey => {
            if opt_blank(&out.api_key) {
                match &g.api_key {
                    Some(k) => {
                        out.api_key = Some(k.clone());
                    },
                    None => {
                        return Err(ResolveErrKind::MissingApiKey);
                    },
                }
            }
        },
        OdooAuthMode::Password => {
            if opt_blank(&out.username) {
                match &g.username {
                    Some(u) => {
                        out.username = Some(u.clone());
                    },
                    None => {
                        return Err(ResolveErrKind::MissingUsername);
                    },
                }
            }
            if opt_blank(&out.password) {
                match &g.password {
                    Some(p) => {
                        out.password = Some(p.clone());
                    },
                    None => {
                        return Err(ResolveErrKind::MissingPassword);
                    },
                }
            }
            if opt_blank(&out.db) {
                return Err(ResolveErrKind::MissingDb);
            }
        },
    }
    Ok(out)
}

/// The resolved set of backend instances, in configuration order.
pub struct OdooEnvConfig {
    pub instances: Vec<(String, OdooInstanceConfig)>,
}

impl OdooEnvConfig {
    /// The names of the configured instances, in order.
    pub fn instance_names(&self) -> (r: Vec<String>)
        ensures
            r@.len() == self.instances@.len(),
            forall|i: int| 0 <= i < r@.len() ==> #[trigger] r@[i]@ == self.instances@[i].0@,
    {
        let mut names: Vec<String> = Vec::new();
        let n = self.instances.len();
        let mut i: usize = 0;
        #[verifier::loop_isolation(false)]
        while i < n
            invariant
                i <= n,
                names@.len() == i,
                forall|j: int| 0 <= j < i ==> #[trigger] names@[j]@ == self.instances@[j].0@,
            decreases n - i,
        {
            names.push(self.instances[i].0.clone());
            i += 1;
        }
        names
    }
}

/// The instance names joined with commas: empty for none, otherwise
/// each further name preceded by a comma and a space.
pub open spec fn joined_names_spec(names: Seq<Seq<char>>) -> Seq<char>
    decreases names.len(),
{
    if names.len() == 0 {
        Seq::empty()
    } else if names.len() == 1 {
        names[0]
    } else {
        names[0] + ", "@ + joined_names_spec(names.skip(1))
    }
}

/// Joining one more name appends a comma, a space and that name.
proof fn lemma_joined_names_snoc(names: Seq<Seq<char>>, x: Seq<char>)
    requires
        names.len() >= 1,
    ensures
        joined_names_spec(names.push(x)) == joined_names_spec(names) + ", "@ + x,
    decreases names.len(),
{
    let ext = names.push(x);
    if names.len() == 1 {
        assert(ext[0] == names[0]);
        assert(ext.skip(1) =~~= seq![x]);
        assert(joined_names_spec(seq![x]) == seq![x][0]);
        assert(seq![x][0] == x);
        assert(joined_names_spec(ext) == ext[0] + ", "@ + joined_names_spec(ext.skip(1)));
    } else {
        assert(ext.skip(1) =~~= names.skip(1).push(x));
        lemma_joined_names_snoc(names.skip(1), x);
        assert(ext[0] == names[0]);
        assert(names[0] + ", "@ + (joined_names_spec(names.skip(1)) + ", "@ + x) =~= (names[0]
            + ", "@ + joined_names_spec(names.skip(1))) + ", "@ + x);
    }
}

/// The error text for a request naming an instance the configuration
/// lacks, listing what is available.
#[verifier::loop_isolation(false)]
pub fn unknown_instance_message(instance: &str, available: &Vec<String>) -> (r: String)
    ensures
        r@ == "Unknown Odoo instance '"@ + instance@ + "'. Available: "@ + joined_names_spec(
            available.deep_view(),
        ),
{
    let mut joined = String::new();
    let n = available.len();
    let mut i: usize = 0;
    proof {
        assert(available.deep_view().take(0) =~~= Seq::<Seq<char>>::empty());
    }
    while i < n
        invariant
            i <= n,
            n == available@.len(),
            joined@ == joined_names_spec(available.deep_view().take(i as int)),
        decreases n - i,
    {
        let ghost prefix = available.deep_view().take(i as int);
        if i > 0 {
            joined.append(", ");
        }
        joined.append(available[i].as_str());
        proof {
            reveal_strlit(", ");
            assert(available.deep_view().take(i + 1) =~~= prefix.push(
                available.deep_view()[i as int],
            ));
            if i > 0 {
                lemma_joined_names_snoc(prefix, available.deep_view()[i as int]);
            } else {
                assert(joined_names_spec(available.deep_view().take(1)) == available.deep_view()[0]);
            }
        }
        i += 1;
    }
    proof {
        assert(available.deep_view().take(n as int) =~~= available.deep_view());
    }
    let r = String::from_str("Unknown Odoo instance '").concat(instance).concat(
        "'. Available: ",
    ).concat(joined.as_str());
    r
}

/// Resolve the whole instance set against the globals. Fails when no
/// instance is configured, or on the first instance a credential is
/// missing for; otherwise every instance comes back resolved, in order,
/// under its own name.
#[verifier::loop_isolation(false)]
pub fn resolve_env_config(instances: Vec<(String, OdooInstanceConfig)>, g: &GlobalCreds) -> (r:
    Result<Vec<(String, OdooInstanceConfig)>, ResolveError>)
    ensures
        instances@.len() == 0 ==> (r matches Err(e) && e.kind is NoInstances),
        instances@.len() > 0 ==> r.is_ok() == forall|i: int|
            0 <= i < instances@.len() ==> #[trigger] resolve_err(instances@[i].1, *g) is None,
        r matches Ok(out) ==> {
            &&& out@.len() == instances@.len()
            &&& forall|i: int|
                0 <= i < instances@.len() ==> #[trigger] out@[i].0 == instances@[i].0
                    && resolved_fields(instances@[i].1, *g, out@[i].1)
        },
        instances@.len() > 0 ==> (r matches Err(e) ==> exists|i: int|
            0 <= i < instances@.len() && #[trigger] resolve_err(instances@[i].1, *g) == Some(
                e.kind,
            ) && e.instance == instances@[i].0),
{
    let mut remaining = instances;
    let ghost orig = remaining@;
    if remaining.len() == 0 {
        return Err(ResolveError {
            instance: String::new(),
            kind: ResolveErrKind::NoInstances,
        });
    }
    let mut out: Vec<(String, OdooInstanceConfig)> = Vec::new();
    let mut i: usize = 0;
    while remaining.len() > 0
        invariant
            remaining@ =~= orig.skip(i as int),
            i <= orig.len(),
            out@.len() == i,
            forall|j: int|
                0 <= j < i ==> #[trigger] resolve_err(orig[j].1, *g) is None,
            forall|j: int|
                0 <= j < i ==> #[trigger] out@[j].0 == orig[j].0 && resolved_fields(
                    orig[j].1,
                    *g,
                    out@[j].1,
                ),
        decreases remaining@.len(),
    {
        let entry = remaining.remove(0);
        proof {
            assert(entry == orig[i as int]);
            assert(remaining@ =~= orig.skip(i + 1));
        }
        let name = entry.0;
        match resolve_instance(entry.1, g) {
            Ok(resolved) => {
                out.push((name, resolved));
            },
            Err(kind) => {
                proof {
                    assert(resolve_err(orig[i as int].1, *g) == Some(kind));
                }
                return Err(ResolveError { instance: name, kind });
            },
        }
        i += 1;
    }
    proof {
        assert(i == orig.len());
    }
    Ok(out)
}

} // verus!
