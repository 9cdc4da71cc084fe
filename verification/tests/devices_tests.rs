use devflow::devices::{
    avd_boot_message, avd_exit_error, avd_precheck, boot_completed, boot_target, physical_apple_device,
    resolve_simulator, simulator_boot_outcome, simulator_device, simulator_shutdown_outcome, AdbDiscoverer, BootTarget,
    DesktopDiscoverer, DeviceManager, EmulatorManager,
};
use devflow::platform::{Device, DeviceState, Platform};

const ADB: &str = "List of devices attached\n\
* daemon started successfully\n\
emulator-5554          device product:sdk_gphone64 model:sdk_gphone64_arm64 device:emu64a transport_id:1\n\
R58N12ABCDE            device usb:1-1 product:a35 device:a35x transport_id:2\n\
0123456789             offline\n\
\n\
ZX1            recovery\n\
lonely\n";

#[test]
fn adb_listing_gives_devices_with_names_and_states() {
    let ds = AdbDiscoverer::discover(ADB);
    assert_eq!(ds.len(), 4);
    assert_eq!(ds[0].id, "emulator-5554");
    assert_eq!(ds[0].name, "sdk gphone64 arm64");
    assert_eq!(ds[0].state, DeviceState::Connected);
    assert!(ds[0].is_emulator);
    assert_eq!(ds[1].name, "a35x");
    assert!(!ds[1].is_emulator);
    assert_eq!(ds[2].name, "0123456789");
    assert_eq!(ds[2].state, DeviceState::Unavailable);
    assert_eq!(ds[3].state, DeviceState::Busy);
    assert!(ds.iter().all(|d| d.platform == Platform::Android));
}

#[test]
fn avd_listing_and_devices() {
    let avds = EmulatorManager::list_avds("Pixel_7_API_34\n  \nMedium_Phone \n");
    assert_eq!(avds, vec!["Pixel_7_API_34".to_string(), "Medium_Phone".to_string()]);
    let ds = EmulatorManager::discover_avd_devices(&avds);
    assert_eq!(ds[0].id, "avd:Pixel_7_API_34");
    assert_eq!(ds[0].name, "Android Virtual Device (Pixel_7_API_34)");
    assert_eq!(ds[0].state, DeviceState::Shutdown);
    assert!(ds[0].is_emulator);
}

#[test]
fn merged_devices_skip_avds_already_listed() {
    let adb = vec![Device::new("avd:Pixel".to_string(), "Running Pixel".to_string(), Platform::Android, DeviceState::Connected)];
    let avds = EmulatorManager::discover_avd_devices(&vec!["Pixel".to_string(), "Tablet".to_string(), "Tablet".to_string()]);
    let apple = vec![physical_apple_device(Some("U1"), Some("Phone"), Some("wired"))];
    let all = DeviceManager::discover_all(DesktopDiscoverer::discover(), adb, avds, apple);
    let ids: Vec<&str> = all.iter().map(|d| d.id.as_str()).collect();
    assert_eq!(ids, vec!["host", "avd:Pixel", "avd:Tablet", "U1"]);
}

fn sample() -> Vec<Device> {
    vec![
        Device::host_desktop(),
        Device::new("emulator-5554".to_string(), "Pixel".to_string(), Platform::Android, DeviceState::Unavailable),
        Device::new("R58".to_string(), "Galaxy".to_string(), Platform::Android, DeviceState::Connected),
        Device::new("U1".to_string(), "iPhone".to_string(), Platform::Apple, DeviceState::Connected),
    ]
}

#[test]
fn best_match_prefers_target_then_online_platform_then_desktop() {
    let ds = sample();
    assert_eq!(DeviceManager::find_best_match(&ds, Some(Platform::Android), Some("pixel")), Some(1));
    assert_eq!(DeviceManager::find_best_match(&ds, Some(Platform::Android), None), Some(2));
    assert_eq!(DeviceManager::find_best_match(&ds, Some(Platform::Ios), None), Some(3));
    assert_eq!(DeviceManager::find_best_match(&ds, Some(Platform::Macos), None), Some(0));
    assert_eq!(DeviceManager::find_best_match(&ds, None, Some("nothing")), Some(0));
    assert_eq!(DeviceManager::find_best_match(&Vec::new(), None, None), None);
}

#[test]
fn boot_requests_are_told_apart() {
    let udid = "12345678-1234-1234-1234-123456789012";
    assert!(matches!(boot_target(udid), BootTarget::Simulator(s) if s == udid));
    assert!(matches!(boot_target("avd:Pixel_7"), BootTarget::Avd(n) if n == "Pixel_7"));
    assert!(matches!(boot_target("Pixel-7"), BootTarget::Avd(n) if n == "Pixel-7"));
}

#[test]
fn simulator_entries_and_resolution() {
    let sim = simulator_device("com.apple.CoreSimulator.SimRuntime.iOS-17-2", Some("A-1"), Some("iPhone 15"), Some("Booted"), None).unwrap();
    assert_eq!(sim.name, "iPhone 15 (iOS-17-2)");
    assert!(simulator_device("rt", Some("B"), None, None, Some(false)).is_none());
    let found = vec![sim];
    assert_eq!(resolve_simulator(&found, "iphone 15 (iOS-17-2)").unwrap(), "A-1");
    assert_eq!(resolve_simulator(&found, "iPhone").unwrap(), "A-1");
    assert_eq!(
        resolve_simulator(&found, "iPad").unwrap_err(),
        "iOS Simulator 'iPad' not found in xcrun simctl. Available simulators: [iPhone 15 (iOS-17-2)]."
    );
    assert_eq!(
        resolve_simulator(&Vec::new(), "iPad").unwrap_err(),
        "iOS Simulator 'iPad' not found in xcrun simctl. Available simulators: [none (install runtimes in Xcode > Settings > Platforms)]."
    );
}

#[test]
fn simulator_boot_and_shutdown_outcomes() {
    assert_eq!(simulator_boot_outcome("A-1", true, "").unwrap(), "Simulator 'A-1' booted successfully");
    assert!(simulator_boot_outcome("A-1", false, "Unable to boot device in current state: Booted").is_ok());
    assert_eq!(
        simulator_boot_outcome("A-1", false, "  Invalid device \n").unwrap_err(),
        "Failed to boot simulator 'A-1': Invalid device"
    );
    assert_eq!(simulator_shutdown_outcome("A-1", true, "").unwrap(), "Simulator 'A-1' shut down");
    assert_eq!(simulator_shutdown_outcome("A-1", false, "nope").unwrap_err(), "Shutdown returned: nope");
}

#[test]
fn avd_boot_messages() {
    let known = vec!["Pixel".to_string(), "Tablet".to_string()];
    assert_eq!(
        avd_precheck("Phone", &known).unwrap(),
        "Android Virtual Device 'Phone' not found. Available AVDs: [Pixel, Tablet]. You can create one via Android Studio Device Manager."
    );
    assert!(avd_precheck("Pixel", &known).is_none());
    assert!(avd_precheck("Anything", &Vec::new()).is_none());
    assert_eq!(avd_boot_message("Pixel", true), "AVD 'Pixel' booted and ready");
    assert_eq!(avd_boot_message("Pixel", false), "AVD 'Pixel' launched in background (booting in progress)");
    assert_eq!(
        avd_exit_error(Some(1), "  \n"),
        "Android emulator failed to start (exit code 1): Check AVD configuration and hardware virtualization"
    );
    assert_eq!(avd_exit_error(None, " PANIC: no AVD \n"), "Android emulator failed to start (exit code -1): PANIC: no AVD");
    assert!(boot_completed("1\n"));
    assert!(!boot_completed("0\n"));
    assert!(!boot_completed(""));
}
