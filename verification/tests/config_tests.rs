use u2cli::config::{config_dir, default_save_dir, U2CliConfig};
use u2cli::errors::U2Error;

#[test]
fn defaults_have_no_cookie_and_config_dir_as_save_dir() {
    let c = U2CliConfig::defaults("/home/user");
    assert!(c.nexusphp_u2.is_none());
    assert_eq!(c.save_dir, "/home/user/.u2");
}

#[test]
fn default_save_dir_is_the_config_dir() {
    assert_eq!(default_save_dir("/home/user"), "/home/user/.u2");
    assert_eq!(config_dir("/home/user"), "/home/user/.u2");
}

#[test]
fn serialize_with_cookie_exact_text() {
    let c = U2CliConfig {
        nexusphp_u2: Some("abc".to_string()),
        save_dir: "/data/torrents".to_string(),
    };
    assert_eq!(c.serialize(), "nexusphp_u2 = \"abc\"\nsave_dir = \"/data/torrents\"\n");
}

#[test]
fn serialize_without_cookie_exact_text() {
    let c = U2CliConfig { nexusphp_u2: None, save_dir: "/data/torrents".to_string() };
    assert_eq!(c.serialize(), "save_dir = \"/data/torrents\"\n");
}

#[test]
fn round_trip_with_cookie() {
    let c = U2CliConfig {
        nexusphp_u2: Some("abc123".to_string()),
        save_dir: "/data/torrents".to_string(),
    };
    let read_back = U2CliConfig::parse(&c.serialize()).unwrap();
    assert_eq!(read_back, c);
}

#[test]
fn round_trip_without_cookie() {
    let c = U2CliConfig { nexusphp_u2: None, save_dir: "/home/user/.u2".to_string() };
    let read_back = U2CliConfig::parse(&c.serialize()).unwrap();
    assert_eq!(read_back, c);
}

#[test]
fn parse_reads_cookie_and_save_dir() {
    let c = U2CliConfig::parse("nexusphp_u2 = \"abc\"\nsave_dir = \"/d\"\n").unwrap();
    assert_eq!(c.nexusphp_u2.as_deref(), Some("abc"));
    assert_eq!(c.save_dir, "/d");
}

#[test]
fn parse_rejects_garbage() {
    assert_eq!(U2CliConfig::parse("hello").unwrap_err(), U2Error::FormatError);
    assert_eq!(U2CliConfig::parse("").unwrap_err(), U2Error::FormatError);
}

#[test]
fn parse_rejects_missing_line_break() {
    assert_eq!(U2CliConfig::parse("save_dir = \"/a\"").unwrap_err(), U2Error::FormatError);
}

#[test]
fn parse_rejects_trailing_text() {
    assert_eq!(U2CliConfig::parse("save_dir = \"/a\"\nx").unwrap_err(), U2Error::FormatError);
}

#[test]
fn parse_rejects_cookie_line_alone() {
    assert_eq!(
        U2CliConfig::parse("nexusphp_u2 = \"abc\"\n").unwrap_err(),
        U2Error::FormatError
    );
}

#[test]
fn apply_update_sets_given_values() {
    let mut c = U2CliConfig::defaults("/home/user");
    let updated =
        c.apply_update(&Some("abc123".to_string()), &Some("/data/torrents".to_string()));
    assert!(updated);
    assert_eq!(c.nexusphp_u2.as_deref(), Some("abc123"));
    assert_eq!(c.save_dir, "/data/torrents");
}

#[test]
fn apply_update_keeps_missing_values() {
    let mut c = U2CliConfig {
        nexusphp_u2: Some("old".to_string()),
        save_dir: "/keep".to_string(),
    };
    let updated = c.apply_update(&Some("new".to_string()), &None);
    assert!(updated);
    assert_eq!(c.nexusphp_u2.as_deref(), Some("new"));
    assert_eq!(c.save_dir, "/keep");
}

#[test]
fn apply_update_without_values_changes_nothing() {
    let mut c = U2CliConfig::defaults("/home/user");
    let before = c.clone();
    let updated = c.apply_update(&None, &None);
    assert!(!updated);
    assert_eq!(c, before);
}

#[test]
fn config_display_shows_configured_cookie() {
    let mut c = U2CliConfig::defaults("/home/user");
    c.apply_update(&Some("abc123".to_string()), &Some("/data/torrents".to_string()));
    let lines = c.display_lines();
    assert_eq!(lines.len(), 3);
    assert_eq!(lines[0], "Current configuration:");
    assert_eq!(lines[1], "Cookie: abc123");
    assert_eq!(lines[2], "Save directory: /data/torrents");
}

#[test]
fn cookie_display_placeholder_when_absent() {
    let c = U2CliConfig::defaults("/home/user");
    assert_eq!(c.cookie_display(), "Not set");
    let lines = c.display_lines();
    assert_eq!(lines[1], "Cookie: Not set");
}
