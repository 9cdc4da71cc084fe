use devflow::host_config::{host_update, HostUpdate};

fn written(u: HostUpdate) -> serde_json::Value {
    match u {
        HostUpdate::Write(t) => serde_json::from_str(&t).unwrap(),
        HostUpdate::AlreadyConfigured => panic!("unexpected: already configured"),
        HostUpdate::Unwritable => panic!("unexpected: unwritable"),
    }
}

#[test]
fn missing_file_gets_the_entry() {
    let v = written(host_update(None, "mcpServers", false));
    assert_eq!(v["mcpServers"]["devflow"]["command"], "devflow");
    assert_eq!(v["mcpServers"]["devflow"]["args"][0], "mcp");
    assert_eq!(v["mcpServers"]["devflow"]["args"][1], "serve");
}

#[test]
fn other_servers_and_settings_are_kept() {
    let existing = r#"{"theme": "dark", "servers": {"other": {"command": "x"}}}"#;
    let v = written(host_update(Some(existing), "servers", false));
    assert_eq!(v["theme"], "dark");
    assert_eq!(v["servers"]["other"]["command"], "x");
    assert_eq!(v["servers"]["devflow"]["command"], "devflow");
}

#[test]
fn existing_entry_is_kept_unless_forced() {
    let existing = r#"{"mcpServers": {"devflow": {"command": "old"}}}"#;
    assert!(matches!(host_update(Some(existing), "mcpServers", false), HostUpdate::AlreadyConfigured));
    let v = written(host_update(Some(existing), "mcpServers", true));
    assert_eq!(v["mcpServers"]["devflow"]["command"], "devflow");
}

#[test]
fn broken_configuration_is_replaced() {
    let v = written(host_update(Some("not json at all"), "mcpServers", false));
    assert_eq!(v["mcpServers"]["devflow"]["command"], "devflow");
    let v = written(host_update(Some("[1, 2]"), "mcpServers", false));
    assert!(v.is_object());
    let v = written(host_update(Some(r#"{"mcpServers": 3, "keep": true}"#), "mcpServers", false));
    assert_eq!(v["keep"], true);
    assert_eq!(v["mcpServers"]["devflow"]["command"], "devflow");
}

#[test]
fn server_key_with_slash_is_addressed_as_one_member() {
    let v = written(host_update(Some(r#"{"a/b": {}}"#), "a/b", false));
    assert_eq!(v["a/b"]["devflow"]["command"], "devflow");
}
