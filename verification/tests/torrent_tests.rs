use u2cli::config::U2CliConfig;
use u2cli::errors::U2Error;
use u2cli::text::dec_string;
use u2cli::torrent::{
    clean_selection, cookie_header, is_torrent_file, join_path, prepare_download,
    select_torrents, torrent_filename, torrent_save_path, torrent_url,
    transmission_command_line, transmission_outcome,
};

#[test]
fn dec_string_exact_values() {
    assert_eq!(dec_string(0), "0");
    assert_eq!(dec_string(7), "7");
    assert_eq!(dec_string(42), "42");
    assert_eq!(dec_string(1234567890), "1234567890");
    assert_eq!(dec_string(u64::MAX), "18446744073709551615");
}

#[test]
fn torrent_url_embeds_the_id() {
    assert_eq!(torrent_url(42), "https://u2.dmhy.org/download.php?id=42");
    assert_eq!(torrent_url(1), "https://u2.dmhy.org/download.php?id=1");
}

#[test]
fn torrent_filename_is_id_dot_torrent() {
    assert_eq!(torrent_filename(42), "42.torrent");
}

#[test]
fn save_path_joins_dir_and_filename() {
    assert_eq!(torrent_save_path("/data", 42), "/data/42.torrent");
    assert_eq!(torrent_save_path("/data/", 42), "/data/42.torrent");
    assert_eq!(torrent_save_path("", 7), "7.torrent");
    assert_eq!(join_path("/a/b", "c.txt"), "/a/b/c.txt");
}

#[test]
fn cookie_header_is_name_value() {
    assert_eq!(cookie_header("abc123"), "nexusphp_u2=abc123");
}

#[test]
fn torrent_extension_detection() {
    assert!(is_torrent_file("1.torrent"));
    assert!(is_torrent_file("a.b.torrent"));
    assert!(!is_torrent_file(".torrent"));
    assert!(!is_torrent_file("notes.txt"));
    assert!(!is_torrent_file("torrent"));
    assert!(!is_torrent_file(""));
}

#[test]
fn clean_selects_only_torrent_files() {
    let entries = vec![
        "1.torrent".to_string(),
        "2.torrent".to_string(),
        "notes.txt".to_string(),
    ];
    let selected = select_torrents(&entries);
    assert_eq!(selected.len(), 2);
    assert_eq!(selected[0], "1.torrent");
    assert_eq!(selected[1], "2.torrent");
    assert!(!selected.contains(&"notes.txt".to_string()));
}

#[test]
fn clean_on_missing_directory_selects_nothing() {
    let selected = clean_selection(&None);
    assert_eq!(selected.len(), 0);
}

#[test]
fn clean_counts_exactly_the_torrent_files() {
    let entries = vec![
        "a.torrent".to_string(),
        "keep.txt".to_string(),
        "b.torrent".to_string(),
        "c.torrent".to_string(),
        "image.png".to_string(),
    ];
    let listing = Some(entries);
    let selected = clean_selection(&listing);
    assert_eq!(selected.len(), 3);
    for name in &selected {
        assert!(is_torrent_file(name));
    }
}

#[test]
fn download_without_cookie_is_an_auth_error() {
    let config = U2CliConfig { nexusphp_u2: None, save_dir: "/data".to_string() };
    let err = prepare_download(&config, 42).unwrap_err();
    assert_eq!(err, U2Error::AuthError);
    assert_eq!(err.message(), "Need Cookie");
}

#[test]
fn download_with_cookie_pins_url_header_and_path() {
    let config = U2CliConfig {
        nexusphp_u2: Some("tok".to_string()),
        save_dir: "/save".to_string(),
    };
    let req = prepare_download(&config, 42).unwrap();
    assert_eq!(req.url, "https://u2.dmhy.org/download.php?id=42");
    assert_eq!(req.cookie_header, "nexusphp_u2=tok");
    assert_eq!(req.save_path, "/save/42.torrent");
}

#[test]
fn transmission_command_line_shape() {
    let (cmd, args) = transmission_command_line("/save/42.torrent");
    assert_eq!(cmd, "transmission-remote");
    assert_eq!(args, vec!["-a".to_string(), "/save/42.torrent".to_string()]);
}

#[test]
fn transmission_outcome_by_exit_status() {
    assert!(transmission_outcome(true, "").is_ok());
    let err = transmission_outcome(false, "boom").unwrap_err();
    assert_eq!(err, U2Error::ExternalToolError("boom".to_string()));
    assert_eq!(err.message(), "Failed to add torrent: boom");
}

#[test]
fn error_messages() {
    assert_eq!(U2Error::EnvironmentError.message(), "Only support linux");
    assert_eq!(U2Error::IoError.message(), "io error");
    assert_eq!(U2Error::FormatError.message(), "invalid configuration file");
    assert_eq!(U2Error::NetworkError.message(), "network error");
}
