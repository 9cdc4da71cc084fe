use devflow::apple::{parse_devicectl_devices, parse_simctl_devices, AppleDiscoverer};
use devflow::json::pointer_escape;
use devflow::platform::{DeviceState, Platform};

const SIMCTL: &str = r#"{
  "devices": {
    "com.apple.CoreSimulator.SimRuntime.iOS-17-0": [
      { "udid": "AAAA-1111", "name": "iPhone 15", "state": "Booted", "isAvailable": true },
      { "udid": "BBBB-2222", "name": "iPhone 14", "state": "Shutdown", "isAvailable": false },
      { "udid": "CCCC-3333", "state": "Creating" }
    ],
    "com.apple.CoreSimulator.SimRuntime.watchOS-10-0": [
      { "udid": "DDDD-4444", "name": "Watch", "state": "Shutdown" }
    ],
    "com.apple.CoreSimulator.SimRuntime.tvOS-17-0": "not a list"
  }
}"#;

#[test]
fn simctl_listing_gives_available_simulators() {
    let devices = parse_simctl_devices(SIMCTL.as_bytes());
    assert_eq!(devices.len(), 3);
    let first = devices.iter().find(|d| d.id == "AAAA-1111").unwrap();
    assert_eq!(first.name, "iPhone 15 (iOS-17-0)");
    assert_eq!(first.state, DeviceState::Booted);
    assert_eq!(first.platform, Platform::Ios);
    assert!(first.is_emulator);
    assert_eq!(first.os_version.as_deref(), Some("iOS-17-0"));
    let unnamed = devices.iter().find(|d| d.id == "CCCC-3333").unwrap();
    assert_eq!(unnamed.name, "Simulator (iOS-17-0)");
    assert_eq!(unnamed.state, DeviceState::Unavailable);
    let watch = devices.iter().find(|d| d.id == "DDDD-4444").unwrap();
    assert_eq!(watch.name, "Watch (watchOS-10-0)");
    assert_eq!(watch.state, DeviceState::Shutdown);
    assert!(devices.iter().all(|d| d.id != "BBBB-2222"));
}

#[test]
fn simctl_listing_that_is_not_json_gives_nothing() {
    assert!(parse_simctl_devices(b"xcrun: error: unable to find utility").is_empty());
    assert!(parse_simctl_devices(br#"{"runtimes": []}"#).is_empty());
}

#[test]
fn simctl_runtime_with_slash_is_still_found() {
    let json = r#"{"devices": {"odd/runtime.x~y": [{"udid": "E1", "name": "Pad", "state": "Booted"}]}}"#;
    let devices = parse_simctl_devices(json.as_bytes());
    assert_eq!(devices.len(), 1);
    assert_eq!(devices[0].name, "Pad (x~y)");
}

#[test]
fn pointer_tokens_escape_tilde_and_slash() {
    assert_eq!(pointer_escape("a/b~c"), "a~1b~0c");
    assert_eq!(pointer_escape("plain"), "plain");
}

#[test]
fn devicectl_listing_gives_physical_devices() {
    let json = r#"{"result": {"devices": [
        {"identifier": "ID-1", "hardwareProperties": {"udid": "00008110-XYZ"},
         "deviceProperties": {"name": "My iPhone"},
         "connectionProperties": {"transportType": "wired"}},
        {"identifier": "ID-2", "connectionProperties": {"transportType": ""}},
        {"identifier": "ID-3", "hardwareProperties": {"udid": 7}}
    ]}}"#;
    let devices = parse_devicectl_devices(json.as_bytes());
    assert_eq!(devices.len(), 3);
    assert_eq!(devices[0].id, "00008110-XYZ");
    assert_eq!(devices[0].name, "My iPhone");
    assert_eq!(devices[0].state, DeviceState::Connected);
    assert!(!devices[0].is_emulator);
    assert_eq!(devices[1].id, "ID-2");
    assert_eq!(devices[1].name, "Apple Device");
    assert_eq!(devices[1].state, DeviceState::Unavailable);
    assert_eq!(devices[2].id, "");
    assert_eq!(devices[2].state, DeviceState::Connected);
}

#[test]
fn devicectl_listing_without_devices_gives_nothing() {
    assert!(parse_devicectl_devices(br#"{"result": {}}"#).is_empty());
    assert!(parse_devicectl_devices(b"not json").is_empty());
}

#[test]
fn apple_discovery_lists_simulators_then_devices() {
    let devicectl = r#"{"result": {"devices": [{"identifier": "PHONE"}]}}"#;
    let all = AppleDiscoverer::discover(Some(SIMCTL.as_bytes()), Some(devicectl.as_bytes()));
    assert_eq!(all.len(), 4);
    assert_eq!(all[3].id, "PHONE");
    assert!(all[..3].iter().all(|d| d.is_emulator));
    assert!(AppleDiscoverer::discover(None, None).is_empty());
}
