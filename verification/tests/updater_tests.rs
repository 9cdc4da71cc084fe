use devflow::updater::{
    install_request_error, parse_latest_release, update_check_response, updater_check_reply, UpdateInstallRequest,
};

const FEED: &str = r#"{
  "tag_name": "v0.9.0",
  "name": "DevFlow 0.9",
  "body": "Faster builds",
  "published_at": "2025-01-02T03:04:05Z",
  "html_url": "https://github.com/cmdworks/devflow/releases/tag/v0.9.0",
  "assets": [
    {"name": "devflow-gui-linux-x86_64.tar.gz", "browser_download_url": "https://example.com/linux.tgz"},
    {"name": "devflow-gui-macos-arm64.tar.gz", "browser_download_url": "https://example.com/mac.tgz"},
    {"name": "devflow-gui-macos-arm64.tar.gz", "browser_download_url": "https://example.com/second.tgz"}
  ]
}"#;

#[test]
fn release_feed_is_read_field_by_field() {
    let rel = parse_latest_release(FEED.as_bytes()).unwrap();
    assert_eq!(rel.tag_name.as_deref(), Some("v0.9.0"));
    assert_eq!(rel.name.as_deref(), Some("DevFlow 0.9"));
    assert_eq!(rel.body.as_deref(), Some("Faster builds"));
    let assets = rel.assets.unwrap();
    assert_eq!(assets.len(), 3);
    assert_eq!(assets[1].browser_download_url.as_deref(), Some("https://example.com/mac.tgz"));
}

#[test]
fn release_feed_that_is_not_json_is_no_release() {
    assert!(parse_latest_release(b"<html>rate limited</html>").is_none());
}

#[test]
fn release_feed_without_strings_leaves_fields_empty() {
    let rel = parse_latest_release(br#"{"tag_name": 3, "assets": "none"}"#).unwrap();
    assert!(rel.tag_name.is_none());
    assert!(rel.name.is_none());
    assert!(rel.assets.is_none());
}

#[test]
fn newer_release_is_offered_with_the_platform_archive() {
    let r = updater_check_reply("0.8.5", "macos", "arm64", Some(FEED.as_bytes()));
    assert_eq!(r.current_version, "0.8.5");
    assert_eq!(r.latest_version, "0.9.0");
    assert!(r.update_available);
    assert_eq!(r.release_name, "DevFlow 0.9");
    assert_eq!(r.release_notes, "Faster builds");
    assert_eq!(r.published_at, "2025-01-02T03:04:05Z");
    assert_eq!(r.download_url.as_deref(), Some("https://example.com/mac.tgz"));
    assert_eq!(r.html_url, "https://github.com/cmdworks/devflow/releases/tag/v0.9.0");
    assert_eq!(r.target_platform, "macos-arm64");
}

#[test]
fn same_version_is_not_an_update() {
    let r = updater_check_reply("0.9.0", "linux", "x86_64", Some(FEED.as_bytes()));
    assert!(!r.update_available);
    assert_eq!(r.download_url.as_deref(), Some("https://example.com/linux.tgz"));
}

#[test]
fn platform_without_archive_has_no_download() {
    let r = updater_check_reply("0.1.0", "other", "unknown", Some(FEED.as_bytes()));
    assert!(r.update_available);
    assert!(r.download_url.is_none());
}

#[test]
fn failed_fetch_reports_running_version() {
    let r = updater_check_reply("1.2.3", "linux", "arm64", None);
    assert_eq!(r.latest_version, "1.2.3");
    assert!(!r.update_available);
    assert_eq!(r.release_name, "DevFlow");
    assert_eq!(r.release_notes, "");
    assert!(r.download_url.is_none());
    assert_eq!(r.html_url, "https://github.com/cmdworks/devflow/releases");
    let same = update_check_response("1.2.3", "linux", "arm64", None);
    assert_eq!(same.latest_version, r.latest_version);
}

#[test]
fn empty_tag_keeps_running_version() {
    let r = updater_check_reply("1.0.0", "linux", "x86_64", Some(br#"{"tag_name": "v", "assets": []}"#));
    assert_eq!(r.latest_version, "1.0.0");
    assert!(!r.update_available);
    assert_eq!(r.release_name, "v");
    assert_eq!(r.html_url, "https://github.com/cmdworks/devflow/releases");
}

#[test]
fn blank_download_link_is_refused() {
    let req = UpdateInstallRequest { download_url: "   ".to_string() };
    assert_eq!(install_request_error(&req).as_deref(), Some("Download URL cannot be empty"));
    let ok = UpdateInstallRequest { download_url: " https://example.com/a.tgz ".to_string() };
    assert!(install_request_error(&ok).is_none());
}
