//! Target platforms and devices.
use vstd::prelude::*;
use crate::text::owned;

verus! {

/// The platform a project targets or a device runs.
#[derive(Clone, Copy, Debug, PartialEq, Eq, Structural)]
pub enum Platform {
    Android,
    Ios,
    Apple,
    Macos,
    Desktop,
    Generic,
}

/// The lower-case name of a platform.
pub open spec fn platform_name(p: Platform) -> Seq<char> {
    match p {
        Platform::Android => "android"@,
        Platform::Ios => "ios"@,
        Platform::Apple => "apple"@,
        Platform::Macos => "macos"@,
        Platform::Desktop => "desktop"@,
        Platform::Generic => "generic"@,
    }
}

impl Platform {
    /// The lower-case name of the platform.
    pub fn as_str(&self) -> (r: &'static str)
        ensures
            r@ == platform_name(*self),
    {
        match self {
            Platform::Android => "android",
            Platform::Ios => "ios",
            Platform::Apple => "apple",
            Platform::Macos => "macos",
            Platform::Desktop => "desktop",
            Platform::Generic => "generic",
        }
    }

    /// Whether a device of platform `dev` serves a request for platform
    /// `self`: the same platform, or an Apple device for iOS.
    pub fn accepts(&self, dev: Platform) -> (r: bool)
        ensures
            r == (dev == *self || (*self == Platform::Ios && dev == Platform::Apple)),
    {
        dev == *self || (*self == Platform::Ios && dev == Platform::Apple)
    }
}

/// The reachability of a device.
#[derive(Clone, Copy, Debug, PartialEq, Eq, Structural)]
pub enum DeviceState {
    Connected,
    Booted,
    Shutdown,
    Unavailable,
    Busy,
}

/// A device, emulator or simulator that an app can run on.
#[derive(Debug)]
pub struct Device {
    pub id: String,
    pub name: String,
    pub platform: Platform,
    pub state: DeviceState,
    pub is_emulator: bool,
    pub is_default: bool,
    pub os_version: Option<String>,
}

/// The contents of a device.
pub struct DeviceView {
    pub id: Seq<char>,
    pub name: Seq<char>,
    pub platform: Platform,
    pub state: DeviceState,
    pub is_emulator: bool,
    pub is_default: bool,
    pub os_version: Option<Seq<char>>,
}

/// The contents of a device.
pub open spec fn device_view(d: Device) -> DeviceView {
    DeviceView {
        id: d.id@,
        name: d.name@,
        platform: d.platform,
        state: d.state,
        is_emulator: d.is_emulator,
        is_default: d.is_default,
        os_version: match d.os_version {
            Some(v) => Some(v@),
            None => None,
        },
    }
}

/// The contents of the device standing for this computer.
pub open spec fn host_view() -> DeviceView {
    DeviceView {
        id: "host"@,
        name: "This Computer"@,
        platform: Platform::Desktop,
        state: DeviceState::Connected,
        is_emulator: false,
        is_default: true,
        os_version: None,
    }
}

/// The contents of a list of devices.
pub open spec fn device_views(s: Seq<Device>) -> Seq<DeviceView> {
    s.map_values(|d: Device| device_view(d))
}

/// The two devices have the same fields.
pub open spec fn same_device(a: Device, b: Device) -> bool {
    &&& a.id@ == b.id@
    &&& a.name@ == b.name@
    &&& a.platform == b.platform
    &&& a.state == b.state
    &&& a.is_emulator == b.is_emulator
    &&& a.is_default == b.is_default
    &&& match (a.os_version, b.os_version) {
        (Some(x), Some(y)) => x@ == y@,
        (None, None) => true,
        _ => false,
    }
}

/// Both absent, or both present with the same fields.
pub open spec fn same_opt_device(a: Option<Device>, b: Option<Device>) -> bool {
    match (a, b) {
        (Some(x), Some(y)) => same_device(x, y),
        (None, None) => true,
        _ => false,
    }
}

/// A copy of an optional device.
pub fn clone_opt_device(o: &Option<Device>) -> (r: Option<Device>)
    ensures
        same_opt_device(r, *o),
{
    match o {
        Some(d) => Some(d.duplicate()),
        None => None,
    }
}

/// A copy of an optional string.
pub fn clone_opt_string(o: &Option<String>) -> (r: Option<String>)
    ensures
        match (r, *o) {
            (Some(a), Some(b)) => a@ == b@,
            (None, None) => true,
            _ => false,
        },
{
    match o {
        Some(s) => Some(owned(s.as_str())),
        None => None,
    }
}

impl Device {
    /// A device with the given identity that is neither an emulator nor the
    /// default, with no OS version known.
    pub fn new(id: String, name: String, platform: Platform, state: DeviceState) -> (d: Device)
        ensures
            d.id@ == id@,
            d.name@ == name@,
            d.platform == platform,
            d.state == state,
            !d.is_emulator,
            !d.is_default,
            d.os_version is None,
    {
        Device { id, name, platform, state, is_emulator: false, is_default: false, os_version: None }
    }

    /// The machine DevFlow itself runs on, always available.
    pub fn host_desktop() -> (d: Device)
        ensures
            d.id@ == "host"@,
            d.name@ == "This Computer"@,
            d.platform == Platform::Desktop,
            d.state == DeviceState::Connected,
            !d.is_emulator,
            d.is_default,
            d.os_version is None,
    {
        Device {
            id: owned("host"),
            name: owned("This Computer"),
            platform: Platform::Desktop,
            state: DeviceState::Connected,
            is_emulator: false,
            is_default: true,
            os_version: None,
        }
    }

    /// A copy of the device.
    pub fn duplicate(&self) -> (d: Device)
        ensures
            same_device(d, *self),
    {
        Device {
            id: owned(self.id.as_str()),
            name: owned(self.name.as_str()),
            platform: self.platform,
            state: self.state,
            is_emulator: self.is_emulator,
            is_default: self.is_default,
            os_version: clone_opt_string(&self.os_version),
        }
    }
}

} // verus!
