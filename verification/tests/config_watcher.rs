//! Tests around configuration file naming and paths.

use std::path::PathBuf;

use rust_mcp::configman::ConfigResult;

#[test]
fn test_json_file_detection() {
    let filename = "tools.json";
    assert!(filename.ends_with(".json"));

    let non_json = "readme.txt";
    assert!(!non_json.ends_with(".json"));
}

#[test]
fn test_config_file_names() {
    let valid_configs = vec![
        "tools.json",
        "prompts.json",
        "server.json",
        "instances.json",
    ];

    for config in valid_configs {
        assert!(config.ends_with(".json"));
        assert!(config.len() > 5); // At least ".json"
    }
}

#[test]
fn test_pathbuf_creation() {
    let path = PathBuf::from("/tmp/config");
    assert!(path.to_str().is_some());

    let joined = path.join("tools.json");
    assert!(joined.to_str().unwrap().contains("tools.json"));
}

#[test]
fn test_file_name_extraction() {
    let path = PathBuf::from("/tmp/config/tools.json");
    let filename = path.file_name().and_then(|n| n.to_str());

    assert_eq!(filename, Some("tools.json"));
}

#[test]
fn config_result_builders_report_outcomes() {
    let ok = ConfigResult::ok("saved");
    assert!(ok.success);
    assert_eq!(ok.message, "saved");
    assert!(ok.warning.is_none());
    assert!(!ok.rollback_performed);

    let warned = ConfigResult::ok("saved").with_warning("careful");
    assert!(warned.success);
    assert_eq!(warned.warning, Some("careful".to_string()));

    let rolled = ConfigResult::error("failed").with_rollback();
    assert!(!rolled.success);
    assert_eq!(rolled.message, "failed");
    assert!(rolled.rollback_performed);
}
