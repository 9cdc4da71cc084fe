//! Device discovery and control decisions: reading what `adb`, the Android
//! emulator and Apple's `simctl`/`devicectl` report, choosing the device a
//! session runs on, and how a boot request is carried out.
use vstd::prelude::*;
use crate::platform::{Device, DeviceState, DeviceView, Platform, device_view, device_views, host_view};
use crate::number::{signed_decimal, to_signed_decimal};
use vstd::string::StringSliceAdditionalSpecFns;
use crate::search::{first_index, lemma_first_from_skip, lemma_first_from_facts};
use crate::split::{lines, split_lines, split_words, words, split_char, split_on, lemma_split_char_nonempty};
use crate::text::{
    chars_eq, chars_of, concat_str, contains, has_char, is_prefix, owned, replace_all,
    slice_of, starts_with, string_of, trim, trim_ws, to_vec, ascii_lower, eq_ignore_ascii_case,
    join_strings, join_with, to_lowercase, unicode_lower, contains_chars, strip_prefix,
    strip_prefix_or_keep,
};

verus! {

/// The state `adb devices` reports in its second column.
pub open spec fn adb_state(s: Seq<char>) -> DeviceState {
    if s == "device"@ {
        DeviceState::Connected
    } else if s == "offline"@ {
        DeviceState::Unavailable
    } else if s == "bootloader"@ || s == "recovery"@ {
        DeviceState::Busy
    } else {
        DeviceState::Unavailable
    }
}

/// The display name read from the columns after the state, up to column `k`:
/// a `model:` column gives the model with `_` as spaces; a `device:` column
/// gives the device name while no model was seen; else the serial.
pub open spec fn adb_name(id: Seq<char>, parts: Seq<Seq<char>>, k: int) -> Seq<char>
    decreases k,
{
    if k <= 2 || k > parts.len() {
        id
    } else {
        let prev = adb_name(id, parts, k - 1);
        let p = parts[k - 1];
        if is_prefix("model:"@, p) {
            replace_all(p.skip(6), "_"@, " "@)
        } else if is_prefix("device:"@, p) && prev == id {
            p.skip(7)
        } else {
            prev
        }
    }
}

/// The device one line of `adb devices -l` describes, if any: blank lines,
/// the header, daemon notices (`*`) and lines with fewer than two columns
/// describe none.
pub open spec fn adb_line_device(line: Seq<char>) -> Option<DeviceView> {
    let l = trim(line);
    let parts = words(l);
    if l.len() == 0 || is_prefix("List of devices"@, l) || is_prefix("*"@, l) || parts.len() < 2 {
        None
    } else {
        Some(
            DeviceView {
                id: parts[0],
                name: adb_name(parts[0], parts, parts.len() as int),
                platform: Platform::Android,
                state: adb_state(parts[1]),
                is_emulator: is_prefix("emulator-"@, parts[0]),
                is_default: false,
                os_version: None,
            },
        )
    }
}

/// The devices the lines describe, in order.
pub open spec fn adb_devices(ls: Seq<Seq<char>>) -> Seq<DeviceView>
    decreases ls.len(),
{
    if ls.len() == 0 {
        Seq::empty()
    } else {
        let before = adb_devices(ls.drop_last());
        match adb_line_device(ls.last()) {
            Some(d) => before.push(d),
            None => before,
        }
    }
}

fn text_is(a: &[char], lit: &str) -> (r: bool)
    ensures
        r == (a@ == lit@),
{
    let l = chars_of(lit);
    chars_eq(a, l.as_slice())
}

fn has_prefix(a: &[char], lit: &str) -> (r: bool)
    ensures
        r == is_prefix(lit@, a@),
{
    let l = chars_of(lit);
    starts_with(a, l.as_slice())
}

fn adb_state_of(s: &[char]) -> (r: DeviceState)
    ensures
        r == adb_state(s@),
{
    if text_is(s, "device") {
        DeviceState::Connected
    } else if text_is(s, "offline") {
        DeviceState::Unavailable
    } else if text_is(s, "bootloader") || text_is(s, "recovery") {
        DeviceState::Busy
    } else {
        DeviceState::Unavailable
    }
}

fn adb_line(line: &[char]) -> (r: Option<Device>)
    ensures
        match adb_line_device(line@) {
            Some(v) => r matches Some(d) && device_view(d) == v,
            None => r is None,
        },
{
    proof {
        reveal_strlit("model:");
        reveal_strlit("device:");
        reveal_strlit("_");
    }
    let l = trim_ws(line);
    let parts = split_words(l.as_slice());
    if l.len() == 0 || has_prefix(l.as_slice(), "List of devices") || has_prefix(l.as_slice(), "*")
        || parts.len() < 2 {
        return None;
    }
    let ghost ps = words(l@);
    let id = to_vec(parts[0].as_slice());
    let mut name = to_vec(parts[0].as_slice());
    let mut k: usize = 2;
    while k < parts.len()
        invariant
            2 <= k <= parts@.len(),
            parts@.len() == ps.len(),
            forall|j: int| 0 <= j < parts@.len() ==> #[trigger] parts@[j]@ == ps[j],
            id@ == ps[0],
            name@ == adb_name(ps[0], ps, k as int),
        decreases parts@.len() - k,
    {
        let part = &parts[k];
        proof {
            reveal_strlit("model:");
            reveal_strlit("device:");
            reveal_strlit("_");
        }
        let ghost prev = name@;
        assert(part@ == ps[k as int]);
        if has_prefix(part.as_slice(), "model:") {
            let rest = slice_of(part.as_slice(), 6, part.len());
            assert(rest@ =~= part@.skip(6));
            let underscore = vec!['_'];
            let space = vec![' '];
            assert(underscore@ =~= "_"@);
            assert(space@ =~= " "@) by {
                reveal_strlit(" ");
            }
            name = crate::text::replace(rest.as_slice(), underscore.as_slice(), space.as_slice());
            assert(name@ == adb_name(ps[0], ps, k + 1));
        } else if has_prefix(part.as_slice(), "device:") && chars_eq(name.as_slice(), id.as_slice()) {
            name = slice_of(part.as_slice(), 7, part.len());
            assert(name@ =~= part@.skip(7));
            assert(name@ == adb_name(ps[0], ps, k + 1));
        } else {
            assert(name@ == adb_name(ps[0], ps, k + 1));
        }
        k = k + 1;
    }
    let is_emulator = has_prefix(id.as_slice(), "emulator-");
    let state = adb_state_of(parts[1].as_slice());
    let mut d = Device::new(string_of(id.as_slice()), string_of(name.as_slice()), Platform::Android, state);
    d.is_emulator = is_emulator;
    Some(d)
}

/// The computer DevFlow runs on, as a device.
pub struct DesktopDiscoverer;

impl DesktopDiscoverer {
    /// This computer, which is always there (see `Device::host_desktop`).
    pub fn discover() -> (r: Vec<Device>)
        ensures
            device_views(r@) == seq![host_view()],
    {
        let r = vec![Device::host_desktop()];
        assert(device_views(r@) =~= seq![host_view()]);
        r
    }
}

/// Discovery of the Android devices `adb` reports.
pub struct AdbDiscoverer;

impl AdbDiscoverer {
    /// The devices `adb devices -l` reported in `stdout` (the caller runs it),
    /// in order: serial, display name (see `adb_name`), state, and whether it
    /// is an emulator (a serial starting with `emulator-`).
    pub fn discover(stdout: &str) -> (r: Vec<Device>)
        ensures
            device_views(r@) == adb_devices(lines(stdout@)),
    {
        let text = chars_of(stdout);
        let ls = split_lines(text.as_slice());
        let ghost lv = lines(stdout@);
        let mut r: Vec<Device> = Vec::new();
        let mut i: usize = 0;
        assert(lv.take(0) =~= Seq::<Seq<char>>::empty());
        while i < ls.len()
            invariant
                i <= ls@.len(),
                ls@.len() == lv.len(),
                forall|j: int| 0 <= j < ls@.len() ==> #[trigger] ls@[j]@ == lv[j],
                device_views(r@) == adb_devices(lv.take(i as int)),
            decreases ls@.len() - i,
        {
            let found = adb_line(ls[i].as_slice());
            assert(lv.take(i + 1).drop_last() =~= lv.take(i as int));
            assert(lv.take(i + 1).last() == ls@[i as int]@);
            match found {
                Some(d) => {
                    r.push(d);
                    assert(device_views(r@) =~= adb_devices(lv.take(i + 1)));
                },
                None => {},
            }
            i = i + 1;
        }
        assert(lv.take(ls@.len() as int) =~= lv);
        r
    }
}


/// The AVD names `emulator -list-avds` prints: its lines trimmed, blank ones
/// left out.
pub open spec fn avd_names(ls: Seq<Seq<char>>) -> Seq<Seq<char>>
    decreases ls.len(),
{
    if ls.len() == 0 {
        Seq::empty()
    } else {
        let before = avd_names(ls.drop_last());
        if trim(ls.last()).len() == 0 {
            before
        } else {
            before.push(trim(ls.last()))
        }
    }
}

/// The texts of a list of strings.
pub open spec fn texts(v: Seq<String>) -> Seq<Seq<char>> {
    v.map_values(|s: String| s@)
}

/// The Android emulator and its virtual devices.
pub struct EmulatorManager;

impl EmulatorManager {
    /// The AVD names in the output of `emulator -list-avds` (the caller runs
    /// it).
    pub fn list_avds(stdout: &str) -> (r: Vec<String>)
        ensures
            texts(r@) == avd_names(lines(stdout@)),
    {
        let text = chars_of(stdout);
        let ls = split_lines(text.as_slice());
        let ghost lv = lines(stdout@);
        let mut r: Vec<String> = Vec::new();
        let mut i: usize = 0;
        assert(lv.take(0) =~= Seq::<Seq<char>>::empty());
        while i < ls.len()
            invariant
                i <= ls@.len(),
                ls@.len() == lv.len(),
                forall|j: int| 0 <= j < ls@.len() ==> #[trigger] ls@[j]@ == lv[j],
                texts(r@) == avd_names(lv.take(i as int)),
            decreases ls@.len() - i,
        {
            let t = trim_ws(ls[i].as_slice());
            assert(lv.take(i + 1).drop_last() =~= lv.take(i as int));
            assert(lv.take(i + 1).last() == ls@[i as int]@);
            if t.len() > 0 {
                r.push(string_of(t.as_slice()));
                assert(texts(r@) =~= avd_names(lv.take(i + 1)));
            }
            i = i + 1;
        }
        assert(lv.take(ls@.len() as int) =~= lv);
        r
    }
}

/// The bootable device standing for the AVD `name`.
pub open spec fn avd_device(name: Seq<char>) -> DeviceView {
    DeviceView {
        id: "avd:"@ + name,
        name: "Android Virtual Device ("@ + name + ")"@,
        platform: Platform::Android,
        state: DeviceState::Shutdown,
        is_emulator: true,
        is_default: false,
        os_version: None,
    }
}

impl EmulatorManager {
    /// One bootable, shut-down emulator device per AVD name, in order.
    pub fn discover_avd_devices(avds: &Vec<String>) -> (r: Vec<Device>)
        ensures
            device_views(r@) == texts(avds@).map_values(|a: Seq<char>| avd_device(a)),
    {
        let mut r: Vec<Device> = Vec::new();
        let mut i: usize = 0;
        while i < avds.len()
            invariant
                i <= avds@.len(),
                r@.len() == i,
                forall|j: int| 0 <= j < i ==> #[trigger] device_view(r@[j]) == avd_device(avds@[j]@),
            decreases avds@.len() - i,
        {
            let a = avds[i].as_str();
            let id = concat_str("avd:", a);
            let n1 = concat_str("Android Virtual Device (", a);
            let name = concat_str(n1.as_str(), ")");
            let mut d = Device::new(id, name, Platform::Android, DeviceState::Shutdown);
            d.is_emulator = true;
            r.push(d);
            i = i + 1;
        }
        assert(device_views(r@) =~= texts(avds@).map_values(|a: Seq<char>| avd_device(a)));
        r
    }
}

/// Some listed device has the id or the name of `d`.
pub open spec fn clashes(list: Seq<DeviceView>, d: DeviceView) -> bool {
    exists|j: int| 0 <= j < list.len() && ((#[trigger] list[j]).id == d.id || list[j].name == d.name)
}

/// `acc` extended by the AVD devices, each left out when a device already
/// listed (including an AVD added before it) has its id or its name.
pub open spec fn add_avds(acc: Seq<DeviceView>, avds: Seq<DeviceView>) -> Seq<DeviceView>
    decreases avds.len(),
{
    if avds.len() == 0 {
        acc
    } else {
        let m = add_avds(acc, avds.drop_last());
        if clashes(m, avds.last()) {
            m
        } else {
            m.push(avds.last())
        }
    }
}

/// All devices of a discovery, in order: the host, then those adb reports,
/// then the AVDs that add something new, then Apple's.
pub open spec fn merged_devices(
    desktop: Seq<DeviceView>,
    adb: Seq<DeviceView>,
    avds: Seq<DeviceView>,
    apple: Seq<DeviceView>,
) -> Seq<DeviceView> {
    add_avds(desktop + adb, avds) + apple
}

fn clashes_exec(list: &Vec<Device>, d: &Device) -> (r: bool)
    ensures
        r == clashes(device_views(list@), device_view(*d)),
{
    let id = chars_of(d.id.as_str());
    let name = chars_of(d.name.as_str());
    let mut j: usize = 0;
    while j < list.len()
        invariant
            j <= list@.len(),
            id@ == d.id@,
            name@ == d.name@,
            forall|k: int|
                0 <= k < j ==> !((#[trigger] device_views(list@)[k]).id == d.id@ || device_views(
                    list@,
                )[k].name == d.name@),
        decreases list@.len() - j,
    {
        let lid = chars_of(list[j].id.as_str());
        let lname = chars_of(list[j].name.as_str());
        if chars_eq(lid.as_slice(), id.as_slice()) || chars_eq(lname.as_slice(), name.as_slice()) {
            assert(device_views(list@)[j as int].id == d.id@ || device_views(list@)[j as int].name
                == d.name@);
            return true;
        }
        j = j + 1;
    }
    false
}

/// All the devices an app can run on, and the choice among them.
pub struct DeviceManager;

impl DeviceManager {
    /// Puts together the devices of one discovery, from what each discoverer
    /// found (see `merged_devices`).
    pub fn discover_all(desktop: Vec<Device>, adb: Vec<Device>, avds: Vec<Device>, apple: Vec<Device>) -> (r: Vec<Device>)
        ensures
            device_views(r@) == merged_devices(
                device_views(desktop@),
                device_views(adb@),
                device_views(avds@),
                device_views(apple@),
            ),
    {
        let ghost av = device_views(avds@);
        let ghost start = device_views(desktop@) + device_views(adb@);
        let mut all = desktop;
        let mut more = adb;
        all.append(&mut more);
        assert(device_views(all@) =~= start);
        assert(av.len() <= usize::MAX) by {
            assert(avds.len() == avds@.len());
        }
        let mut rest = avds;
        let mut i: usize = 0;
        assert(av.take(0) =~= Seq::<DeviceView>::empty());
        while rest.len() > 0
            invariant
                i <= av.len(),
                av.len() <= usize::MAX,
                device_views(rest@) == av.skip(i as int),
                device_views(all@) == add_avds(start, av.take(i as int)),
            decreases rest@.len(),
        {
            let ghost old_rest = rest@;
            assert(device_views(old_rest).len() == old_rest.len());
            assert(i < av.len());
            let d = rest.remove(0);
            assert(device_views(rest@) =~= device_views(old_rest).skip(1));
            assert(device_views(old_rest)[0] == av[i as int]);
            assert(device_views(rest@) =~= av.skip(i + 1));
            assert(av.take(i + 1).drop_last() =~= av.take(i as int));
            assert(av.take(i + 1).last() == device_view(d));
            if !clashes_exec(&all, &d) {
                all.push(d);
                assert(device_views(all@) =~= add_avds(start, av.take(i + 1)));
            }
            i = i + 1;
        }
        assert(av.take(i as int) =~= av);
        let mut tail = apple;
        let ghost before = device_views(all@);
        all.append(&mut tail);
        assert(device_views(all@) =~= before + device_views(apple@));
        all
    }
}

/// The device is online: connected or booted.
pub open spec fn is_online(d: DeviceView) -> bool {
    d.state == DeviceState::Connected || d.state == DeviceState::Booted
}

/// The device serves platform `p` (an Apple device serves iOS).
pub open spec fn serves(p: Platform, d: DeviceView) -> bool {
    d.platform == p || (p == Platform::Ios && d.platform == Platform::Apple)
}

/// The device has id `t` or a name equal to `t` up to ASCII case.
pub open spec fn named(t: Seq<char>) -> spec_fn(DeviceView) -> bool {
    |d: DeviceView| d.id == t || ascii_lower(d.name) == ascii_lower(t)
}

/// The device serves `p` and is online.
pub open spec fn online_for(p: Platform) -> spec_fn(DeviceView) -> bool {
    |d: DeviceView| serves(p, d) && is_online(d)
}

/// The device serves `p`.
pub open spec fn serving(p: Platform) -> spec_fn(DeviceView) -> bool {
    |d: DeviceView| serves(p, d)
}

/// The device is the desktop host.
pub open spec fn desktop_device() -> spec_fn(DeviceView) -> bool {
    |d: DeviceView| d.platform == Platform::Desktop
}

/// Which device a session runs on: the first with the requested id or name;
/// else, for a preferred platform, the first online device serving it, then
/// the first serving it at all; else the first desktop device.
pub open spec fn best_match(ds: Seq<DeviceView>, preferred: Option<Platform>, target: Option<Seq<char>>) -> Option<int> {
    let by_target = match target {
        Some(t) => first_index(ds, named(t)),
        None => None,
    };
    let by_platform = match preferred {
        Some(p) => match first_index(ds, online_for(p)) {
            Some(i) => Some(i),
            None => first_index(ds, serving(p)),
        },
        None => None,
    };
    match by_target {
        Some(i) => Some(i),
        None => match by_platform {
            Some(i) => Some(i),
            None => first_index(ds, desktop_device()),
        },
    }
}

fn first_match(devices: &Vec<Device>, mode: u8, t: &[char], p: Platform) -> (r: Option<usize>)
    requires
        mode < 4,
    ensures
        ({
            let pred = if mode == 0 {
                named(t@)
            } else if mode == 1 {
                online_for(p)
            } else if mode == 2 {
                serving(p)
            } else {
                desktop_device()
            };
            match r {
                Some(i) => first_index(device_views(devices@), pred) == Some(i as int),
                None => first_index(device_views(devices@), pred) is None,
            }
        }),
{
    let ghost ds = device_views(devices@);
    let ghost pred = if mode == 0 {
        named(t@)
    } else if mode == 1 {
        online_for(p)
    } else if mode == 2 {
        serving(p)
    } else {
        desktop_device()
    };
    let lt = to_ascii_lower_vec(t);
    let mut i: usize = 0;
    while i < devices.len()
        invariant
            i <= devices@.len(),
            ds == device_views(devices@),
            lt@ == ascii_lower(t@),
            mode < 4,
            pred == (if mode == 0 {
                named(t@)
            } else if mode == 1 {
                online_for(p)
            } else if mode == 2 {
                serving(p)
            } else {
                desktop_device()
            }),
            forall|j: int| 0 <= j < i ==> !pred(#[trigger] ds[j]),
        decreases devices@.len() - i,
    {
        let d = &devices[i];
        assert(ds[i as int] == device_view(*d));
        let hit = if mode == 0 {
            let id = chars_of(d.id.as_str());
            let name = chars_of(d.name.as_str());
            let ln = to_ascii_lower_vec(name.as_slice());
            chars_eq(id.as_slice(), t) || chars_eq(ln.as_slice(), lt.as_slice())
        } else if mode == 1 {
            p.accepts(d.platform) && (d.state == DeviceState::Connected || d.state
                == DeviceState::Booted)
        } else if mode == 2 {
            p.accepts(d.platform)
        } else {
            d.platform == Platform::Desktop
        };
        if hit {
            proof {
                lemma_first_from_skip(ds, pred, i as int);
            }
            return Some(i);
        }
        i = i + 1;
    }
    proof {
        lemma_first_from_skip(ds, pred, i as int);
    }
    None
}

fn to_ascii_lower_vec(s: &[char]) -> (r: Vec<char>)
    ensures
        r@ == ascii_lower(s@),
{
    crate::text::to_ascii_lower(s)
}

impl DeviceManager {
    /// The index of the device a session runs on (see `best_match`).
    pub fn find_best_match(devices: &Vec<Device>, preferred: Option<Platform>, target_id: Option<&str>) -> (r: Option<usize>)
        ensures
            match best_match(
                device_views(devices@),
                preferred,
                match target_id {
                    Some(t) => Some(t@),
                    None => None,
                },
            ) {
                Some(i) => r == Some(i as usize),
                None => r is None,
            },
    {
        let none: Vec<char> = Vec::new();
        if let Some(id) = target_id {
            let t = chars_of(id);
            let hit = first_match(devices, 0, t.as_slice(), Platform::Generic);
            if hit.is_some() {
                return hit;
            }
        }
        if let Some(p) = preferred {
            let online = first_match(devices, 1, none.as_slice(), p);
            if online.is_some() {
                return online;
            }
            let any = first_match(devices, 2, none.as_slice(), p);
            if any.is_some() {
                return any;
            }
        }
        first_match(devices, 3, none.as_slice(), Platform::Generic)
    }
}

/// How a boot request is carried out.
#[derive(Debug)]
pub enum BootTarget {
    /// Boot the iOS simulator with this UDID or name.
    Simulator(String),
    /// Boot the Android Virtual Device with this name.
    Avd(String),
}

/// A request names an iOS simulator by UDID when it has a `-` and is at
/// least 36 bytes long.
pub open spec fn looks_like_udid(t: &str) -> bool {
    t@.contains('-') && t.len() >= 36
}

/// Which kind of device a boot request names: a simulator UDID (see
/// `looks_like_udid`) is booted as a simulator; anything else as an AVD,
/// without a leading `avd:`.
pub fn boot_target(target_id: &str) -> (r: BootTarget)
    ensures
        looks_like_udid(target_id) ==> (r matches BootTarget::Simulator(s) && s@ == target_id@),
        !looks_like_udid(target_id) ==> (r matches BootTarget::Avd(n) && n@ == strip_prefix_or_keep(
            target_id@,
            "avd:"@,
        )),
{
    let t = chars_of(target_id);
    if has_char(t.as_slice(), '-') && target_id.len() >= 36 {
        BootTarget::Simulator(owned(target_id))
    } else {
        let p = chars_of("avd:");
        let n = strip_prefix(t.as_slice(), p.as_slice());
        BootTarget::Avd(string_of(n.as_slice()))
    }
}

/// The iOS simulator a `simctl list devices --json` entry describes, unless
/// it is marked unavailable. The OS is the last dot-separated part of the
/// runtime identifier; missing fields read as an empty UDID, the name
/// `Simulator` and an unknown state.
pub open spec fn spec_simulator(
    runtime: Seq<char>,
    udid: Option<Seq<char>>,
    name: Option<Seq<char>>,
    state: Option<Seq<char>>,
    available: Option<bool>,
) -> Option<DeviceView> {
    let os = split_char(runtime, '.').last();
    let st = match state {
        Some(s) => s,
        None => Seq::empty(),
    };
    if available == Some(false) {
        None
    } else {
        Some(
            DeviceView {
                id: match udid {
                    Some(u) => u,
                    None => Seq::empty(),
                },
                name: match name {
                    Some(n) => n,
                    None => "Simulator"@,
                } + " ("@ + os + ")"@,
                platform: Platform::Ios,
                state: if st == "Booted"@ {
                    DeviceState::Booted
                } else if st == "Shutdown"@ {
                    DeviceState::Shutdown
                } else {
                    DeviceState::Unavailable
                },
                is_emulator: true,
                is_default: false,
                os_version: Some(os),
            },
        )
    }
}

/// The text of an optional string slice.
pub open spec fn opt_str(o: Option<&str>) -> Option<Seq<char>> {
    match o {
        Some(s) => Some(s@),
        None => None,
    }
}

fn or_text(o: Option<&str>, d: &str) -> (r: String)
    ensures
        r@ == match o {
            Some(s) => s@,
            None => d@,
        },
{
    match o {
        Some(s) => owned(s),
        None => owned(d),
    }
}

/// The simulator a `simctl` entry describes (see `spec_simulator`).
pub fn simulator_device(
    runtime: &str,
    udid: Option<&str>,
    name: Option<&str>,
    state: Option<&str>,
    available: Option<bool>,
) -> (r: Option<Device>)
    ensures
        match spec_simulator(runtime@, opt_str(udid), opt_str(name), opt_str(state), available) {
            Some(v) => r matches Some(d) && device_view(d) == v,
            None => r is None,
        },
{
    proof {
        reveal_strlit("");
    }
    if available == Some(false) {
        return None;
    }
    let rc = chars_of(runtime);
    let parts = split_on(rc.as_slice(), '.');
    proof {
        lemma_split_char_nonempty(runtime@, '.');
    }
    let os = string_of(parts[parts.len() - 1].as_slice());
    let base = or_text(name, "Simulator");
    let n1 = concat_str(base.as_str(), " (");
    let n2 = concat_str(n1.as_str(), os.as_str());
    let full = concat_str(n2.as_str(), ")");
    let st = or_text(state, "");
    let sc = chars_of(st.as_str());
    assert(sc@ == (match opt_str(state) {
        Some(x) => x,
        None => Seq::<char>::empty(),
    }));
    let dstate = if text_is(sc.as_slice(), "Booted") {
        DeviceState::Booted
    } else if text_is(sc.as_slice(), "Shutdown") {
        DeviceState::Shutdown
    } else {
        DeviceState::Unavailable
    };
    let mut d = Device::new(or_text(udid, ""), full, Platform::Ios, dstate);
    d.is_emulator = true;
    assert(os@ == split_char(runtime@, '.').last());
    d.os_version = Some(os);
    proof {
        let v = spec_simulator(runtime@, opt_str(udid), opt_str(name), opt_str(state), available);
        assert(v is Some);
        assert(device_view(d).id == v->0.id);
        assert(device_view(d).name == v->0.name);
        assert(device_view(d).state == v->0.state);
        assert(device_view(d).os_version == v->0.os_version);
    }
    Some(d)
}

/// A physical Apple device as `devicectl` lists it: missing fields read as
/// an empty identifier, the name `Apple Device`, and a `connected` transport;
/// it is connected unless its transport is empty.
pub open spec fn spec_physical(
    identifier: Option<Seq<char>>,
    name: Option<Seq<char>>,
    transport: Option<Seq<char>>,
) -> DeviceView {
    DeviceView {
        id: match identifier {
            Some(s) => s,
            None => Seq::empty(),
        },
        name: match name {
            Some(s) => s,
            None => "Apple Device"@,
        },
        platform: Platform::Ios,
        state: if (match transport {
            Some(t) => t.len() > 0,
            None => true,
        }) {
            DeviceState::Connected
        } else {
            DeviceState::Unavailable
        },
        is_emulator: false,
        is_default: false,
        os_version: None,
    }
}

/// The physical Apple device `devicectl` fields describe (see
/// `spec_physical`).
pub fn physical_apple_device(identifier: Option<&str>, name: Option<&str>, transport: Option<&str>) -> (r: Device)
    ensures
        device_view(r) == spec_physical(opt_str(identifier), opt_str(name), opt_str(transport)),
{
    proof {
        reveal_strlit("");
        reveal_strlit("connected");
    }
    let t = or_text(transport, "connected");
    let tc = chars_of(t.as_str());
    let state = if tc.len() > 0 {
        DeviceState::Connected
    } else {
        DeviceState::Unavailable
    };
    let d = Device::new(or_text(identifier, ""), or_text(name, "Apple Device"), Platform::Ios, state);
    proof {
        let v = spec_physical(opt_str(identifier), opt_str(name), opt_str(transport));
        assert(device_view(d).id == v.id);
        assert(device_view(d).name == v.name);
        assert(device_view(d).state == v.state);
    }
    d
}

/// The message listing the simulators that could have been meant.
pub open spec fn simulators_not_found(target: Seq<char>, names: Seq<Seq<char>>) -> Seq<char> {
    "iOS Simulator '"@ + target + "' not found in xcrun simctl. Available simulators: ["@ + (if names.len()
        == 0 {
        "none (install runtimes in Xcode > Settings > Platforms)"@
    } else {
        join_with(names, ", "@)
    }) + "]."@
}

/// The names of the emulators among the devices, in order.
pub open spec fn emulator_names(ds: Seq<DeviceView>) -> Seq<Seq<char>>
    decreases ds.len(),
{
    if ds.len() == 0 {
        Seq::empty()
    } else if ds.last().is_emulator {
        emulator_names(ds.drop_last()).push(ds.last().name)
    } else {
        emulator_names(ds.drop_last())
    }
}

/// The simulator a name matches: its id is the name, or its name equals the
/// name up to ASCII case, or its lower-cased name starts with the lower-cased
/// name.
pub open spec fn simulator_named(t: Seq<char>) -> spec_fn(DeviceView) -> bool {
    |d: DeviceView| d.id == t || ascii_lower(d.name) == ascii_lower(t) || is_prefix(
        unicode_lower(t),
        unicode_lower(d.name),
    )
}

/// The UDID a simulator boot request resolves to among the discovered
/// devices: the request itself when it looks like a UDID; else the id of the
/// first device it names; else the message listing the emulators.
pub open spec fn spec_resolve_simulator(ds: Seq<DeviceView>, target: &str) -> Result<Seq<char>, Seq<char>> {
    if looks_like_udid(target) {
        Ok(target@)
    } else {
        match first_index(ds, simulator_named(target@)) {
            Some(i) => Ok(ds[i].id),
            None => Err(simulators_not_found(target@, emulator_names(ds))),
        }
    }
}

/// Resolves a simulator boot request to a UDID (see
/// `spec_resolve_simulator`).
pub fn resolve_simulator(discovered: &Vec<Device>, target: &str) -> (r: Result<String, String>)
    ensures
        match spec_resolve_simulator(device_views(discovered@), target) {
            Ok(u) => r matches Ok(s) && s@ == u,
            Err(m) => r matches Err(s) && s@ == m,
        },
{
    let t = chars_of(target);
    if has_char(t.as_slice(), '-') && target.len() >= 36 {
        return Ok(owned(target));
    }
    let ghost ds = device_views(discovered@);
    let ghost pred = simulator_named(target@);
    let lt = crate::text::to_ascii_lower(t.as_slice());
    let ut = to_lowercase(target);
    let utc = chars_of(ut.as_str());
    let mut i: usize = 0;
    while i < discovered.len()
        invariant
            i <= discovered@.len(),
            ds == device_views(discovered@),
            pred == simulator_named(target@),
            !looks_like_udid(target),
            t@ == target@,
            lt@ == ascii_lower(target@),
            utc@ == unicode_lower(target@),
            forall|j: int| 0 <= j < i ==> !pred(#[trigger] ds[j]),
        decreases discovered@.len() - i,
    {
        let d = &discovered[i];
        assert(ds[i as int] == device_view(*d));
        let id = chars_of(d.id.as_str());
        let name = chars_of(d.name.as_str());
        let ln = crate::text::to_ascii_lower(name.as_slice());
        let un = to_lowercase(d.name.as_str());
        let unc = chars_of(un.as_str());
        if chars_eq(id.as_slice(), t.as_slice()) || chars_eq(ln.as_slice(), lt.as_slice())
            || starts_with(unc.as_slice(), utc.as_slice()) {
            assert(pred(ds[i as int]));
            proof {
                lemma_first_from_skip(ds, pred, i as int);
                assert(first_index(ds, pred) == Some(i as int));
                assert(!looks_like_udid(target));
                assert(spec_resolve_simulator(ds, target) == Ok::<Seq<char>, Seq<char>>(ds[i as int].id));
            }
            return Ok(owned(d.id.as_str()));
        }
        i = i + 1;
    }
    proof {
        lemma_first_from_skip(ds, pred, i as int);
    }
    let mut names: Vec<String> = Vec::new();
    let mut k: usize = 0;
    assert(ds.take(0) =~= Seq::<DeviceView>::empty());
    while k < discovered.len()
        invariant
            k <= discovered@.len(),
            ds == device_views(discovered@),
            texts(names@) == emulator_names(ds.take(k as int)),
        decreases discovered@.len() - k,
    {
        assert(ds.take(k + 1).drop_last() =~= ds.take(k as int));
        assert(ds.take(k + 1).last() == device_view(discovered@[k as int]));
        if discovered[k].is_emulator {
            names.push(owned(discovered[k].name.as_str()));
            assert(texts(names@) =~= emulator_names(ds.take(k + 1)));
        }
        k = k + 1;
    }
    assert(ds.take(discovered@.len() as int) =~= ds);
    let listed = if names.len() == 0 {
        owned("none (install runtimes in Xcode > Settings > Platforms)")
    } else {
        join_strings(&names, ", ")
    };
    assert(texts(names@) == names@.map_values(|s: String| s@));
    let m1 = concat_str("iOS Simulator '", target);
    let m2 = concat_str(m1.as_str(), "' not found in xcrun simctl. Available simulators: [");
    let m3 = concat_str(m2.as_str(), listed.as_str());
    Err(concat_str(m3.as_str(), "]."))
}

/// What a `simctl boot` of `udid` amounts to: success when the command
/// succeeded or its error output says the simulator is already booted.
pub open spec fn spec_boot_outcome(udid: Seq<char>, success: bool, stderr: Seq<char>) -> Result<Seq<char>, Seq<char>> {
    if success || contains(stderr, "booted"@) || contains(stderr, "current state: Booted"@) {
        Ok("Simulator '"@ + udid + "' booted successfully"@)
    } else {
        Err("Failed to boot simulator '"@ + udid + "': "@ + trim(stderr))
    }
}

/// The result of booting simulator `udid` (see `spec_boot_outcome`).
pub fn simulator_boot_outcome(udid: &str, success: bool, stderr: &str) -> (r: Result<String, String>)
    ensures
        match spec_boot_outcome(udid@, success, stderr@) {
            Ok(m) => r matches Ok(s) && s@ == m,
            Err(m) => r matches Err(s) && s@ == m,
        },
{
    let e = chars_of(stderr);
    let p1 = chars_of("booted");
    let p2 = chars_of("current state: Booted");
    if success || contains_chars(e.as_slice(), p1.as_slice()) || contains_chars(e.as_slice(), p2.as_slice()) {
        let a = concat_str("Simulator '", udid);
        Ok(concat_str(a.as_str(), "' booted successfully"))
    } else {
        let t = trim_ws(e.as_slice());
        let ts = string_of(t.as_slice());
        let a = concat_str("Failed to boot simulator '", udid);
        let b = concat_str(a.as_str(), "': ");
        Err(concat_str(b.as_str(), ts.as_str()))
    }
}

/// The result of shutting down simulator `udid`.
pub fn simulator_shutdown_outcome(udid: &str, success: bool, stderr: &str) -> (r: Result<String, String>)
    ensures
        success ==> (r matches Ok(s) && s@ == "Simulator '"@ + udid@ + "' shut down"@),
        !success ==> (r matches Err(s) && s@ == "Shutdown returned: "@ + stderr@),
{
    if success {
        let a = concat_str("Simulator '", udid);
        Ok(concat_str(a.as_str(), "' shut down"))
    } else {
        Err(concat_str("Shutdown returned: ", stderr))
    }
}

/// Whether `adb shell getprop sys.boot_completed` printed `1`, whitespace
/// around it aside: the device finished booting.
pub fn boot_completed(stdout: &str) -> (r: bool)
    ensures
        r == (trim(stdout@) == seq!['1']),
{
    let c = chars_of(stdout);
    let t = trim_ws(c.as_slice());
    let one = vec!['1'];
    assert(one@ =~= seq!['1']);
    chars_eq(t.as_slice(), one.as_slice())
}

/// Why an AVD cannot be booted before trying: when some AVDs are known and
/// `name` is not one of them, the message listing them.
pub fn avd_precheck(name: &str, available: &Vec<String>) -> (r: Option<String>)
    ensures
        (available@.len() > 0 && !texts(available@).contains(name@)) ==> (r matches Some(m) && m@
            == "Android Virtual Device '"@ + name@ + "' not found. Available AVDs: ["@ + join_with(
            texts(available@),
            ", "@,
        ) + "]. You can create one via Android Studio Device Manager."@),
        !(available@.len() > 0 && !texts(available@).contains(name@)) ==> r is None,
{
    if available.len() == 0 {
        return None;
    }
    let n = chars_of(name);
    let mut i: usize = 0;
    while i < available.len()
        invariant
            i <= available@.len(),
            n@ == name@,
            forall|j: int| 0 <= j < i ==> available@[j]@ != name@,
        decreases available@.len() - i,
    {
        let a = chars_of(available[i].as_str());
        if chars_eq(a.as_slice(), n.as_slice()) {
            assert(texts(available@)[i as int] == name@);
            return None;
        }
        i = i + 1;
    }
    assert(!texts(available@).contains(name@)) by {
        if texts(available@).contains(name@) {
            let j = choose|j: int| 0 <= j < texts(available@).len() && texts(available@)[j] == name@;
            assert(available@[j]@ == name@);
        }
    }
    let listed = join_strings(available, ", ");
    assert(texts(available@) == available@.map_values(|s: String| s@));
    let a = concat_str("Android Virtual Device '", name);
    let b = concat_str(a.as_str(), "' not found. Available AVDs: [");
    let c = concat_str(b.as_str(), listed.as_str());
    Some(concat_str(c.as_str(), "]. You can create one via Android Studio Device Manager."))
}

/// The message after launching AVD `name`: ready when the device reported
/// a completed boot, else still booting.
pub fn avd_boot_message(name: &str, ready: bool) -> (r: String)
    ensures
        ready ==> r@ == "AVD '"@ + name@ + "' booted and ready"@,
        !ready ==> r@ == "AVD '"@ + name@ + "' launched in background (booting in progress)"@,
{
    let a = concat_str("AVD '", name);
    if ready {
        concat_str(a.as_str(), "' booted and ready")
    } else {
        concat_str(a.as_str(), "' launched in background (booting in progress)")
    }
}

/// The message when the emulator process exits at once with a failure:
/// its exit code (-1 when unknown) and its trimmed error output, or a hint
/// when that is empty.
pub fn avd_exit_error(code: Option<i32>, stderr: &str) -> (r: String)
    ensures
        r@ == "Android emulator failed to start (exit code "@ + signed_decimal(
            match code {
                Some(c) => c as int,
                None => -1,
            },
        ) + "): "@ + (if trim(stderr@).len() == 0 {
            "Check AVD configuration and hardware virtualization"@
        } else {
            trim(stderr@)
        }),
{
    let c: i32 = match code {
        Some(c) => c,
        None => -1,
    };
    let digits = to_signed_decimal(c);
    let ds = string_of(digits.as_slice());
    let e = chars_of(stderr);
    let t = trim_ws(e.as_slice());
    let msg = if t.len() == 0 {
        owned("Check AVD configuration and hardware virtualization")
    } else {
        string_of(t.as_slice())
    };
    let a = concat_str("Android emulator failed to start (exit code ", ds.as_str());
    let b = concat_str(a.as_str(), "): ");
    concat_str(b.as_str(), msg.as_str())
}

/// A copy of a list of devices.
pub fn copy_devices(ds: &Vec<Device>) -> (r: Vec<Device>)
    ensures
        device_views(r@) == device_views(ds@),
{
    let mut r: Vec<Device> = Vec::new();
    let mut i: usize = 0;
    while i < ds.len()
        invariant
            i <= ds@.len(),
            r@.len() == i,
            forall|j: int| 0 <= j < i ==> device_view(#[trigger] r@[j]) == device_view(ds@[j]),
        decreases ds@.len() - i,
    {
        let d = ds[i].duplicate();
        r.push(d);
        i = i + 1;
    }
    assert(device_views(r@) =~= device_views(ds@));
    r
}

/// The devices the companion app last saw, answered at once while a fresh
/// look is taken in the background.
pub struct DeviceCache {
    /// Whether any list was stored yet.
    pub initialized: bool,
    /// The list last stored.
    pub devices: Vec<Device>,
}

/// The contents of a device cache.
pub struct CacheView {
    pub initialized: bool,
    pub devices: Seq<DeviceView>,
}

/// The contents of a device cache.
pub open spec fn cache_view(c: DeviceCache) -> CacheView {
    CacheView { initialized: c.initialized, devices: device_views(c.devices@) }
}

/// The cache before anything was stored.
pub open spec fn empty_cache() -> CacheView {
    CacheView { initialized: false, devices: Seq::empty() }
}

/// What a request answers: the list last stored once one was, else this
/// computer's own entry `desktop`.
pub open spec fn cache_answer(c: CacheView, desktop: Seq<DeviceView>) -> Seq<DeviceView> {
    if c.initialized {
        c.devices
    } else {
        desktop
    }
}

/// The cache after a request: what it answered is stored.
pub open spec fn after_request(c: CacheView, desktop: Seq<DeviceView>) -> CacheView {
    CacheView { initialized: true, devices: cache_answer(c, desktop) }
}

/// The cache after a fresh list is stored.
pub open spec fn after_store(c: CacheView, fresh: Seq<DeviceView>) -> CacheView {
    CacheView { initialized: true, devices: fresh }
}

impl DeviceCache {
    /// Nothing seen yet.
    pub fn new() -> (r: DeviceCache)
        ensures
            cache_view(r) == empty_cache(),
    {
        let r = DeviceCache { initialized: false, devices: Vec::new() };
        assert(device_views(r.devices@) =~= Seq::<DeviceView>::empty());
        r
    }

    /// The devices last stored.
    pub fn cached(&self) -> (r: Vec<Device>)
        ensures
            device_views(r@) == device_views(self.devices@),
    {
        copy_devices(&self.devices)
    }

    /// The answer to a request for devices (see `cache_answer` and
    /// `after_request`); the caller then looks for all devices in the
    /// background and stores what it finds.
    pub fn request(&mut self, desktop: Vec<Device>) -> (r: Vec<Device>)
        ensures
            device_views(r@) == cache_answer(cache_view(*old(self)), device_views(desktop@)),
            cache_view(*final(self)) == after_request(cache_view(*old(self)), device_views(desktop@)),
    {
        if self.initialized {
            self.cached()
        } else {
            let answer = copy_devices(&desktop);
            self.devices = desktop;
            self.initialized = true;
            answer
        }
    }

    /// Stores a fresh list of all devices (see `after_store`).
    pub fn store(&mut self, fresh: Vec<Device>)
        ensures
            cache_view(*final(self)) == after_store(cache_view(*old(self)), device_views(fresh@)),
    {
        self.devices = fresh;
        self.initialized = true;
    }
}

/// A request answers the list last stored, and leaves the cache as it was;
/// the very first request answers this computer's own entry and stores it,
/// as storing that list would.
pub proof fn law_cache_answers_last_stored(c: CacheView, fresh: Seq<DeviceView>, desktop: Seq<DeviceView>)
    ensures
        cache_answer(after_store(c, fresh), desktop) == fresh,
        after_request(after_store(c, fresh), desktop) == after_store(c, fresh),
        cache_answer(empty_cache(), desktop) == desktop,
        after_request(empty_cache(), desktop) == after_store(empty_cache(), desktop),
{
}


/// With a preferred platform and no device answering to the requested id or
/// name (or none requested), when some device serving that platform (an
/// Apple device serving iOS too) is booted or connected, the session runs on
/// the first such device.
pub proof fn law_best_match_prefers_running(ds: Seq<DeviceView>, p: Platform, target: Option<Seq<char>>)
    requires
        match target {
            Some(t) => forall|k: int|
                0 <= k < ds.len() ==> (#[trigger] ds[k]).id != t && ascii_lower(ds[k].name) != ascii_lower(t),
            None => true,
        },
        exists|k: int|
            0 <= k < ds.len() && ((#[trigger] ds[k]).platform == p || (p == Platform::Ios && ds[k].platform
                == Platform::Apple)) && (ds[k].state == DeviceState::Booted || ds[k].state == DeviceState::Connected),
    ensures
        best_match(ds, Some(p), target) matches Some(i) && 0 <= i < ds.len() && (ds[i].platform == p || (p
            == Platform::Ios && ds[i].platform == Platform::Apple)) && (ds[i].state == DeviceState::Booted
            || ds[i].state == DeviceState::Connected) && forall|j: int|
            0 <= j < i ==> !(((#[trigger] ds[j]).platform == p || (p == Platform::Ios && ds[j].platform
                == Platform::Apple)) && (ds[j].state == DeviceState::Booted || ds[j].state == DeviceState::Connected)),
{
    let k = choose|k: int|
        0 <= k < ds.len() && ((#[trigger] ds[k]).platform == p || (p == Platform::Ios && ds[k].platform
            == Platform::Apple)) && (ds[k].state == DeviceState::Booted || ds[k].state == DeviceState::Connected);
    if let Some(t) = target {
        lemma_first_from_facts(ds, named(t), 0);
        if first_index(ds, named(t)) is Some {
            let i = first_index(ds, named(t))->0;
            assert(named(t)(ds[i]));
        }
    }
    lemma_first_from_facts(ds, online_for(p), 0);
    assert(online_for(p)(ds[k]));
}

/// A booted or connected device of the preferred platform is chosen over a
/// shut-down one of that platform that comes before it.
pub proof fn law_best_match_skips_shut_down(ds: Seq<DeviceView>, p: Platform, i: int, j: int)
    requires
        0 <= i < j < ds.len(),
        ds[i].platform == p && ds[i].state == DeviceState::Shutdown,
        ds[j].platform == p && (ds[j].state == DeviceState::Booted || ds[j].state == DeviceState::Connected),
    ensures
        best_match(ds, Some(p), None) != Some(i),
{
    law_best_match_prefers_running(ds, p, None);
}


/// A device answering to the requested id (or to the requested name, in any
/// ASCII case) is the one chosen, whatever the preferred platform: the first
/// such device.
pub proof fn law_best_match_honours_target(ds: Seq<DeviceView>, preferred: Option<Platform>, t: Seq<char>, k: int)
    requires
        0 <= k < ds.len(),
        ds[k].id == t || ascii_lower(ds[k].name) == ascii_lower(t),
    ensures
        best_match(ds, preferred, Some(t)) matches Some(i) && 0 <= i <= k && (ds[i].id == t || ascii_lower(
            ds[i].name,
        ) == ascii_lower(t)),
{
    lemma_first_from_facts(ds, named(t), 0);
    assert(named(t)(ds[k]));
}

/// With nothing requested and no platform preferred, the session runs on
/// the first desktop device, if any.
pub proof fn law_best_match_defaults_to_desktop(ds: Seq<DeviceView>)
    ensures
        best_match(ds, None, None) matches Some(i) ==> 0 <= i < ds.len() && ds[i].platform == Platform::Desktop
            && forall|j: int| 0 <= j < i ==> (#[trigger] ds[j]).platform != Platform::Desktop,
        (exists|k: int| 0 <= k < ds.len() && (#[trigger] ds[k]).platform == Platform::Desktop) ==> best_match(
            ds,
            None,
            None,
        ) is Some,
        best_match(ds, None, None) is None ==> forall|k: int|
            0 <= k < ds.len() ==> (#[trigger] ds[k]).platform != Platform::Desktop,
{
    lemma_first_from_facts(ds, desktop_device(), 0);
    if exists|k: int| 0 <= k < ds.len() && (#[trigger] ds[k]).platform == Platform::Desktop {
        let k = choose|k: int| 0 <= k < ds.len() && (#[trigger] ds[k]).platform == Platform::Desktop;
        assert(desktop_device()(ds[k]));
    }
    if let Some(i) = best_match(ds, None, None) {
        assert forall|j: int| 0 <= j < i implies (#[trigger] ds[j]).platform != Platform::Desktop by {
            assert(!desktop_device()(ds[j]));
        }
    }
}

} // verus!
