use openframe::config::{config_source, ConfigSource};
use openframe::model::HostOs;
use openframe::config::{preference_value, read_bool, read_string, AppConfig};

fn strings(v: &[&str]) -> Vec<String> {
    v.iter().map(|s| s.to_string()).collect()
}

#[test]
fn read_string_trims_value() {
    assert_eq!(read_string(true, "  https://x \n"), Some("https://x".to_string()));
}

#[test]
fn read_string_empty_or_failed_is_none() {
    assert_eq!(read_string(true, " \n\t"), None);
    assert_eq!(read_string(false, "value"), None);
    assert_eq!(preference_value(String::new()), None);
    assert_eq!(preference_value("v".to_string()), Some("v".to_string()));
}

#[test]
fn read_bool_values() {
    assert!(read_bool(&Some("1".to_string())));
    assert!(read_bool(&Some("TRUE".to_string())));
    assert!(read_bool(&Some("true".to_string())));
    assert!(!read_bool(&Some("0".to_string())));
    assert!(!read_bool(&Some("yes".to_string())));
    assert!(!read_bool(&None));
}

#[test]
fn config_from_preferences() {
    let c = AppConfig::from_preferences(
        Some("/tmp/token".to_string()),
        Some("s3".to_string()),
        None,
        Some("True".to_string()),
    );
    assert_eq!(c.token_path, Some("/tmp/token".to_string()));
    assert_eq!(c.secret, Some("s3".to_string()));
    assert_eq!(c.server_url, None);
    assert!(c.debug_mode);
    assert!(!c.is_valid());
}

#[test]
fn config_from_cli_args() {
    let args = strings(&[
        "chat",
        "--openframe-token-path",
        "/a",
        "--serverUrl",
        "https://x",
        "--openframe-secret",
        "k",
        "--devMode",
        "--serverUrl",
        "https://y",
    ]);
    let c = AppConfig::from_cli_args(&args);
    assert_eq!(c.token_path, Some("/a".to_string()));
    assert_eq!(c.secret, Some("k".to_string()));
    assert_eq!(c.server_url, Some("https://y".to_string()));
    assert!(c.debug_mode);
    assert!(c.is_valid());
}

#[test]
fn config_from_cli_args_flag_without_value() {
    let c = AppConfig::from_cli_args(&strings(&["--serverUrl"]));
    assert_eq!(c.server_url, None);
    assert!(!c.debug_mode);
    assert!(!c.is_valid());
}

#[test]
fn config_source_by_host() {
    assert_eq!(config_source(HostOs::Macos), ConfigSource::Preferences);
    assert_eq!(config_source(HostOs::Linux), ConfigSource::CommandLine);
    assert_eq!(config_source(HostOs::Windows), ConfigSource::CommandLine);
}

#[test]
fn config_load_by_host() {
    let args = strings(&["--serverUrl", "https://cli", "--devMode"]);
    let mac = AppConfig::load(HostOs::Macos, None, None, Some("https://pref".to_string()), None, &args);
    assert_eq!(mac.server_url, Some("https://pref".to_string()));
    assert!(!mac.debug_mode);
    let linux = AppConfig::load(HostOs::Linux, None, None, Some("https://pref".to_string()), None, &args);
    assert_eq!(linux.server_url, Some("https://cli".to_string()));
    assert!(linux.debug_mode);
}
