//! Tests for the smaller verified kernels: string helpers, the
//! environment-file editor, configuration outcomes, backend instance
//! resolution, prompts and the stdio routing decisions.

use rust_mcp::security::parse_origin_list;
use rust_mcp::compat::{route_notification, route_request, CompatDecision, NotificationAction};
use rust_mcp::configman::{
    check_instances_shape, check_prompts_shape, check_server_shape, check_tools_shape,
    save_outcome, JsonShape, ListSource, ReadBack,
};
use rust_mcp::odoo_cfg::{
    normalize_url, parse_u32, resolve_env_config, resolve_instance, unknown_instance_message,
    GlobalCreds, OdooAuthMode, OdooEnvConfig, OdooInstanceConfig, ResolveErrKind,
};
use rust_mcp::prompts::{builtin_prompts, find_prompt};
use rust_mcp::protocol::health_status;
use rust_mcp::registry::StrTable;
use rust_mcp::strutil::{
    str_contains, str_eq_ignore_ascii_case, str_strip_prefix, str_trim, u64_to_dec,
};
use rust_mcp::uiserver::{
    auth_status, authenticated_user, extract_token, generate_mcp_token, generate_session_token,
    login, logout, password_acceptable, token_status, updated_env_content, AuthConfig,
    LoginOutcome, SessionInfo,
};

#[test]
fn string_search_and_trim() {
    assert!(str_contains("http://localhost:3000", "localhost"));
    assert!(!str_contains("http://evil.com", "localhost"));
    assert!(str_contains("abc", ""));
    assert_eq!(str_trim("  a b\t\n"), "a b");
    assert_eq!(str_trim(""), "");
    assert!(str_eq_ignore_ascii_case("TRUE", "true"));
    assert!(!str_eq_ignore_ascii_case("TRUE!", "true"));
    assert_eq!(str_strip_prefix("Bearer tok", "Bearer "), Some("tok".to_string()));
    assert_eq!(str_strip_prefix("Basic tok", "Bearer "), None);
}

#[test]
fn origin_lists_parse_trimmed_and_nonempty() {
    assert_eq!(
        parse_origin_list("https://a.example, https://b.example ,,"),
        vec!["https://a.example".to_string(), "https://b.example".to_string()]
    );
    assert_eq!(parse_origin_list(""), Vec::<String>::new());
    assert_eq!(parse_origin_list(" , "), Vec::<String>::new());
}

#[test]
fn decimal_formatting_is_exact() {
    assert_eq!(u64_to_dec(0), "0");
    assert_eq!(u64_to_dec(7), "7");
    assert_eq!(u64_to_dec(1234567890), "1234567890");
    assert_eq!(u64_to_dec(u64::MAX), "18446744073709551615");
}

#[test]
fn decimal_parsing_is_exact() {
    assert_eq!(parse_u32("18"), Some(18));
    assert_eq!(parse_u32("0"), Some(0));
    assert_eq!(parse_u32(""), None);
    assert_eq!(parse_u32("18.0"), None);
    assert_eq!(parse_u32("4294967295"), Some(u32::MAX));
    assert_eq!(parse_u32("4294967296"), None);
}

#[test]
fn url_normalization_adds_a_scheme_only_when_missing() {
    assert_eq!(normalize_url(" localhost:8069 "), "http://localhost:8069");
    assert_eq!(normalize_url("https://odoo.example.com"), "https://odoo.example.com");
}

fn bare_instance() -> OdooInstanceConfig {
    OdooInstanceConfig {
        url: "localhost:8069".to_string(),
        db: None,
        api_key: None,
        username: None,
        password: None,
        version: None,
        timeout_ms: None,
        max_retries: None,
    }
}

#[test]
fn auth_mode_follows_version_and_credentials() {
    let mut cfg = bare_instance();
    assert_eq!(cfg.auth_mode(), OdooAuthMode::ApiKey);

    cfg.version = Some("18.0".to_string());
    assert_eq!(cfg.auth_mode(), OdooAuthMode::Password);

    cfg.version = Some("19".to_string());
    assert_eq!(cfg.auth_mode(), OdooAuthMode::ApiKey);

    cfg.version = None;
    cfg.username = Some("admin".to_string());
    cfg.password = Some("pw".to_string());
    assert_eq!(cfg.auth_mode(), OdooAuthMode::Password);

    cfg.api_key = Some("key".to_string());
    assert_eq!(cfg.auth_mode(), OdooAuthMode::ApiKey);
}

#[test]
fn resolution_fills_credentials_from_globals() {
    let globals = GlobalCreds {
        api_key: Some("global-key".to_string()),
        username: None,
        password: None,
        version: None,
    };
    let out = resolve_instance(bare_instance(), &globals).unwrap();
    assert_eq!(out.url, "http://localhost:8069");
    assert_eq!(out.api_key.as_deref(), Some("global-key"));

    let empty_globals = GlobalCreds { api_key: None, username: None, password: None, version: None };
    assert_eq!(
        resolve_instance(bare_instance(), &empty_globals).unwrap_err(),
        ResolveErrKind::MissingApiKey
    );
}

#[test]
fn resolution_demands_a_database_for_password_mode() {
    let globals = GlobalCreds {
        api_key: None,
        username: Some("admin".to_string()),
        password: Some("pw".to_string()),
        version: Some("17".to_string()),
    };
    let err = resolve_instance(bare_instance(), &globals).unwrap_err();
    assert_eq!(err, ResolveErrKind::MissingDb);
}

#[test]
fn resolving_no_instances_is_refused_with_guidance() {
    let globals = GlobalCreds { api_key: None, username: None, password: None, version: None };
    let err = resolve_env_config(vec![], &globals).unwrap_err();
    assert_eq!(err.kind, ResolveErrKind::NoInstances);
    assert!(err.message().starts_with("No Odoo instances configured."));

    let missing = resolve_env_config(
        vec![("prod".to_string(), bare_instance())],
        &globals,
    )
    .unwrap_err();
    assert_eq!(missing.kind, ResolveErrKind::MissingApiKey);
    assert_eq!(
        missing.message(),
        "Missing apiKey for instance 'prod'. Provide it in ODOO_INSTANCES or set ODOO_API_KEY."
    );
}

#[test]
fn unknown_instances_are_reported_with_the_alternatives() {
    assert_eq!(
        unknown_instance_message("stage", &vec!["prod".to_string(), "dev".to_string()]),
        "Unknown Odoo instance 'stage'. Available: prod, dev"
    );
    assert_eq!(
        unknown_instance_message("x", &Vec::new()),
        "Unknown Odoo instance 'x'. Available: "
    );
}

#[test]
fn token_status_reports_flag_and_token() {
    assert_eq!(token_status(Some("true".to_string()), Some("tok".to_string())), (true, true));
    assert_eq!(token_status(Some("1".to_string()), Some("  ".to_string())), (true, false));
    assert_eq!(token_status(Some("no".to_string()), None), (false, false));
    assert_eq!(token_status(None, Some("tok".to_string())), (false, true));
}

#[test]
fn instance_names_come_back_in_order() {
    let cfg = OdooEnvConfig {
        instances: vec![
            ("prod".to_string(), bare_instance()),
            ("dev".to_string(), bare_instance()),
        ],
    };
    assert_eq!(cfg.instance_names(), vec!["prod".to_string(), "dev".to_string()]);
}

#[test]
fn shape_checks_give_the_documented_errors() {
    assert!(check_instances_shape(&JsonShape::Object).is_ok());
    let e = check_instances_shape(&JsonShape::Array).unwrap_err();
    assert_eq!(e.message, "Config must be a JSON object with instance names as keys");

    assert!(check_server_shape(&JsonShape::Object).is_ok());
    let e = check_server_shape(&JsonShape::Other).unwrap_err();
    assert_eq!(e.message, "Server config must be a JSON object");

    assert!(matches!(check_tools_shape(&JsonShape::Array, false), Ok(ListSource::Whole)));
    assert!(matches!(check_tools_shape(&JsonShape::Object, true), Ok(ListSource::UnderKey)));
    let e = check_tools_shape(&JsonShape::Object, false).unwrap_err();
    assert_eq!(e.message, "Tools config must be a JSON array or object with 'tools' array");

    let e = check_prompts_shape(&JsonShape::Other, false).unwrap_err();
    assert_eq!(e.message, "Prompts config must be a JSON array or object with 'prompts' array");
}

#[test]
fn save_outcomes_follow_the_backup_rules() {
    let ok = save_outcome(None, ReadBack::Valid, true, "saved fine");
    assert!(ok.success);
    assert_eq!(ok.message, "saved fine");

    let failed = save_outcome(Some("disk full".to_string()), ReadBack::Valid, true, "saved fine");
    assert!(!failed.success);
    assert!(failed.rollback_performed);
    assert_eq!(failed.message, "Failed to save config: disk full");

    let failed_no_backup =
        save_outcome(Some("disk full".to_string()), ReadBack::Valid, false, "saved fine");
    assert!(!failed_no_backup.rollback_performed);

    let corrupted = save_outcome(None, ReadBack::Invalid("bad json".to_string()), true, "saved");
    assert_eq!(
        corrupted.message,
        "Config was corrupted during save, rolled back: bad json"
    );
    assert!(corrupted.rollback_performed);

    let unverified = save_outcome(None, ReadBack::Unreadable("io".to_string()), false, "saved");
    assert!(unverified.success);
}

#[test]
fn env_file_updates_replace_or_append() {
    assert_eq!(
        updated_env_content("A=1\nMCP_AUTH_TOKEN=old\n", "MCP_AUTH_TOKEN", "new"),
        "A=1\nMCP_AUTH_TOKEN=new\n"
    );
    assert_eq!(
        updated_env_content("# MCP_AUTH_ENABLED=false\nB=2", "MCP_AUTH_ENABLED", "true"),
        "MCP_AUTH_ENABLED=true\nB=2\n"
    );
    assert_eq!(updated_env_content("A=1\n", "B", "2"), "A=1\nB=2\n");
    assert_eq!(updated_env_content("", "KEY", "v"), "KEY=v\n");
}

#[test]
fn prompt_catalogue_lookup() {
    let prompts = builtin_prompts();
    assert_eq!(prompts.len(), 2);
    assert_eq!(prompts[0].name, "odoo_common_models");
    assert_eq!(prompts[1].name, "odoo_domain_filters");

    let p = find_prompt("odoo_common_models").expect("known prompt");
    assert_eq!(p.description, "List of commonly used Odoo models");
    assert!(p.content.contains("res.partner"));
    assert!(find_prompt("missing").is_none());
}

#[test]
fn stdio_routing_enforces_the_handshake() {
    assert!(matches!(route_request(false, "initialize"), CompatDecision::Initialize));
    assert!(matches!(route_request(true, "initialize"), CompatDecision::AlreadyInitialized));
    assert!(matches!(route_request(false, "tools/list"), CompatDecision::NotInitialized));
    assert!(matches!(route_request(true, "tools/list"), CompatDecision::Delegate));
    assert!(matches!(route_request(true, "shutdown"), CompatDecision::Shutdown));
    assert!(matches!(route_request(false, "shutdown"), CompatDecision::NotInitialized));

    assert!(matches!(route_notification("exit"), NotificationAction::Exit));
    assert!(matches!(route_notification("initialized"), NotificationAction::MarkInitialized));
    assert!(matches!(route_notification("progress"), NotificationAction::Ignore));
}

#[test]
fn health_status_reflects_reachability() {
    assert_eq!(health_status(false, false), "ok");
    assert_eq!(health_status(true, false), "ok");
    assert_eq!(health_status(true, true), "degraded");
    assert_eq!(health_status(false, true), "unhealthy");
}

#[test]
fn ui_credentials_and_tokens() {
    let auth = AuthConfig::from_values(Some("admin".to_string()), Some("pw".to_string()));
    assert!(auth.enabled);
    assert!(auth.verify("admin", "pw"));
    assert!(!auth.verify("admin", "nope"));

    let disabled = AuthConfig::from_values(Some("admin".to_string()), None);
    assert!(!disabled.enabled);
    assert!(!disabled.verify("admin", ""));

    assert_eq!(generate_session_token().len(), 64);
    assert_eq!(generate_mcp_token().len(), 64);
    assert_ne!(generate_session_token(), generate_session_token());

    assert_eq!(extract_token(Some("Bearer abc")), Some("abc".to_string()));
    assert_eq!(extract_token(Some("Basic abc")), None);
    assert_eq!(extract_token(None), None);

    assert!(password_acceptable("abcd"));
    assert!(!password_acceptable("abc"));
}

#[test]
fn ui_sessions_expire_and_log_out() {
    let mut sessions: StrTable<SessionInfo> = StrTable::new();
    let auth = AuthConfig::from_values(Some("admin".to_string()), Some("pw".to_string()));

    let token = match login(&mut sessions, &auth, "admin", "pw", 1000, 100) {
        LoginOutcome::LoggedIn { token } => token,
        _ => panic!("valid credentials log in"),
    };
    let header = format!("Bearer {}", token);

    let user = authenticated_user(&sessions, Some(&header), 1050);
    assert_eq!(user.as_deref(), Some("admin"));

    // expired session no longer authenticates
    assert!(authenticated_user(&sessions, Some(&header), 1100).is_none());

    let status = auth_status(&sessions, &auth, Some(&header), 1050);
    assert!(status.authenticated);
    assert_eq!(status.username.as_deref(), Some("admin"));

    assert!(logout(&mut sessions, Some(&header)));
    assert!(authenticated_user(&sessions, Some(&header), 1050).is_none());

    assert!(matches!(
        login(&mut sessions, &auth, "admin", "wrong", 0, 1),
        LoginOutcome::InvalidCredentials
    ));
    let off = AuthConfig::from_values(None, None);
    assert!(matches!(
        login(&mut sessions, &off, "admin", "pw", 0, 1),
        LoginOutcome::NotConfigured
    ));
}
