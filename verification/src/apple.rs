//! Reading the JSON listings of Apple's tools: the simulators of
//! `xcrun simctl list devices --json`, grouped by runtime, and the physical
//! devices of `xcrun devicectl list devices`.
use vstd::prelude::*;
use crate::config::strs;
use crate::devices::{physical_apple_device, simulator_device, spec_physical, spec_simulator};
use crate::json::{
    field_flag, field_present, field_text, json_keys, json_keys_of, json_records, json_records_of,
    pointer_escape, pointer_token, rec_flag, rec_present, rec_text, record_view, records_view, JsonField,
};
use crate::platform::{Device, DeviceView, device_view, device_views};
use crate::text::{concat_str, owned};

verus! {

/// The fields read from each `simctl` entry.
pub open spec fn simctl_fields() -> Seq<Seq<char>> {
    seq!["/isAvailable"@, "/udid"@, "/name"@, "/state"@]
}

fn simctl_field_list() -> (r: Vec<String>)
    ensures
        strs(r@) == simctl_fields(),
{
    let r = vec![owned("/isAvailable"), owned("/udid"), owned("/name"), owned("/state")];
    assert(strs(r@) =~= simctl_fields());
    r
}

/// The simulator one `simctl` entry of a runtime describes (see
/// `spec_simulator`).
pub open spec fn simctl_entry(runtime: Seq<char>, rec: Seq<Option<(Option<Seq<char>>, Option<bool>)>>) -> Option<
    DeviceView,
> {
    spec_simulator(runtime, field_text(rec, 1), field_text(rec, 2), field_text(rec, 3), field_flag(rec, 0))
}

/// The simulators the entries of one runtime describe, in order.
pub open spec fn simctl_group(runtime: Seq<char>, recs: Seq<Seq<Option<(Option<Seq<char>>, Option<bool>)>>>) -> Seq<
    DeviceView,
>
    decreases recs.len(),
{
    if recs.len() == 0 {
        Seq::empty()
    } else {
        let before = simctl_group(runtime, recs.drop_last());
        match simctl_entry(runtime, recs.last()) {
            Some(d) => before.push(d),
            None => before,
        }
    }
}

/// Where the entries of a runtime stand in the listing.
pub open spec fn runtime_pointer(runtime: Seq<char>) -> Seq<char> {
    "/devices/"@ + pointer_token(runtime)
}

/// The simulators of the runtimes `keys`, runtime after runtime.
pub open spec fn simctl_runtimes(json: Seq<u8>, keys: Seq<Seq<char>>) -> Seq<DeviceView>
    decreases keys.len(),
{
    if keys.len() == 0 {
        Seq::empty()
    } else {
        simctl_runtimes(json, keys.drop_last()) + match json_records_of(
            json,
            runtime_pointer(keys.last()),
            simctl_fields(),
        ) {
            Some(Some(recs)) => simctl_group(keys.last(), recs),
            _ => Seq::empty(),
        }
    }
}

/// The simulators `xcrun simctl list devices --json` lists: for each runtime
/// under `devices`, the entries of its list not marked unavailable; none
/// when the output is not such a listing.
pub open spec fn simctl_devices(json: Seq<u8>) -> Seq<DeviceView> {
    match json_keys_of(json, "/devices"@) {
        Some(Some(keys)) => simctl_runtimes(json, keys),
        _ => Seq::empty(),
    }
}

fn push_group(out: &mut Vec<Device>, runtime: &str, recs: &Vec<Vec<JsonField>>)
    ensures
        device_views(final(out)@) == device_views(old(out)@) + simctl_group(runtime@, records_view(recs@)),
{
    let ghost start = device_views(out@);
    let ghost rv = records_view(recs@);
    let mut j: usize = 0;
    assert(rv.take(0) =~= Seq::<Seq<Option<(Option<Seq<char>>, Option<bool>)>>>::empty());
    assert(device_views(out@) =~= start + simctl_group(runtime@, rv.take(0)));
    while j < recs.len()
        invariant
            j <= recs@.len(),
            rv == records_view(recs@),
            device_views(out@) == start + simctl_group(runtime@, rv.take(j as int)),
        decreases recs@.len() - j,
    {
        let rec = &recs[j];
        assert(rv.take(j + 1).drop_last() =~= rv.take(j as int));
        assert(rv.take(j + 1).last() == record_view(*rec));
        let found = simulator_device(runtime, rec_text(rec, 1), rec_text(rec, 2), rec_text(rec, 3), rec_flag(rec, 0));
        match found {
            Some(d) => {
                let ghost before = device_views(out@);
                out.push(d);
                assert(device_views(out@) =~= before.push(device_view(d)));
                assert(device_views(out@) =~= start + simctl_group(runtime@, rv.take(j + 1)));
            },
            None => {},
        }
        j = j + 1;
    }
    assert(rv.take(recs@.len() as int) =~= rv);
}

/// The simulators listed in the output of `xcrun simctl list devices
/// --json` (see `simctl_devices`).
pub fn parse_simctl_devices(json: &[u8]) -> (r: Vec<Device>)
    ensures
        device_views(r@) == simctl_devices(json@),
{
    let mut r: Vec<Device> = Vec::new();
    let keys = match json_keys(json, "/devices") {
        Some(Some(k)) => k,
        _ => {
            assert(device_views(r@) =~= Seq::<DeviceView>::empty());
            return r;
        },
    };
    let fields = simctl_field_list();
    let ghost kv = strs(keys@);
    let mut i: usize = 0;
    assert(kv.take(0) =~= Seq::<Seq<char>>::empty());
    assert(device_views(r@) =~= Seq::<DeviceView>::empty());
    while i < keys.len()
        invariant
            i <= keys@.len(),
            kv == strs(keys@),
            strs(fields@) == simctl_fields(),
            device_views(r@) == simctl_runtimes(json@, kv.take(i as int)),
        decreases keys@.len() - i,
    {
        let key = keys[i].as_str();
        let token = pointer_escape(key);
        let ptr = concat_str("/devices/", token.as_str());
        assert(kv.take(i + 1).drop_last() =~= kv.take(i as int));
        assert(kv.take(i + 1).last() == key@);
        match json_records(json, ptr.as_str(), &fields) {
            Some(Some(recs)) => {
                push_group(&mut r, key, &recs);
            },
            _ => {
                assert(device_views(r@) =~= simctl_runtimes(json@, kv.take(i + 1)));
            },
        }
        i = i + 1;
    }
    assert(kv.take(keys@.len() as int) =~= kv);
    r
}

/// The fields read from each `devicectl` entry: the hardware UDID, the
/// identifier used when there is none, the name and the transport.
pub open spec fn devicectl_fields() -> Seq<Seq<char>> {
    seq!["/hardwareProperties/udid"@, "/identifier"@, "/deviceProperties/name"@, "/connectionProperties/transportType"@]
}

fn devicectl_field_list() -> (r: Vec<String>)
    ensures
        strs(r@) == devicectl_fields(),
{
    let r = vec![
        owned("/hardwareProperties/udid"),
        owned("/identifier"),
        owned("/deviceProperties/name"),
        owned("/connectionProperties/transportType"),
    ];
    assert(strs(r@) =~= devicectl_fields());
    r
}

/// The device one `devicectl` entry describes (see `spec_physical`); its
/// identifier is the hardware UDID's text when that field is present, else
/// the `identifier` field's.
pub open spec fn devicectl_entry(rec: Seq<Option<(Option<Seq<char>>, Option<bool>)>>) -> DeviceView {
    spec_physical(
        if field_present(rec, 0) {
            field_text(rec, 0)
        } else {
            field_text(rec, 1)
        },
        field_text(rec, 2),
        field_text(rec, 3),
    )
}

/// The physical devices `xcrun devicectl list devices` lists under
/// `result.devices`, in order; none when the output is not such a listing.
pub open spec fn devicectl_devices(json: Seq<u8>) -> Seq<DeviceView> {
    match json_records_of(json, "/result/devices"@, devicectl_fields()) {
        Some(Some(recs)) => recs.map_values(
            |rec: Seq<Option<(Option<Seq<char>>, Option<bool>)>>| devicectl_entry(rec),
        ),
        _ => Seq::empty(),
    }
}

/// The physical devices listed in the output of `xcrun devicectl list
/// devices` (see `devicectl_devices`).
pub fn parse_devicectl_devices(json: &[u8]) -> (r: Vec<Device>)
    ensures
        device_views(r@) == devicectl_devices(json@),
{
    let fields = devicectl_field_list();
    let mut r: Vec<Device> = Vec::new();
    let recs = match json_records(json, "/result/devices", &fields) {
        Some(Some(v)) => v,
        _ => {
            assert(device_views(r@) =~= Seq::<DeviceView>::empty());
            return r;
        },
    };
    let ghost rv = records_view(recs@);
    let mut j: usize = 0;
    while j < recs.len()
        invariant
            j <= recs@.len(),
            rv == records_view(recs@),
            r@.len() == j,
            forall|k: int| 0 <= k < j ==> device_view(#[trigger] r@[k]) == devicectl_entry(rv[k]),
        decreases recs@.len() - j,
    {
        let rec = &recs[j];
        assert(rv[j as int] == record_view(*rec));
        let id = if rec_present(rec, 0) {
            rec_text(rec, 0)
        } else {
            rec_text(rec, 1)
        };
        let d = physical_apple_device(id, rec_text(rec, 2), rec_text(rec, 3));
        r.push(d);
        j = j + 1;
    }
    assert(device_views(r@) =~= rv.map_values(
        |rec: Seq<Option<(Option<Seq<char>>, Option<bool>)>>| devicectl_entry(rec),
    ));
    r
}

/// Discovery of Apple's simulators and devices.
pub struct AppleDiscoverer;

impl AppleDiscoverer {
    /// The simulators, then the physical devices, that `xcrun simctl list
    /// devices --json` and `xcrun devicectl list devices` printed (`None`
    /// for a tool that did not run successfully; see `simctl_devices` and
    /// `devicectl_devices`).
    pub fn discover(simctl: Option<&[u8]>, devicectl: Option<&[u8]>) -> (r: Vec<Device>)
        ensures
            device_views(r@) == (match simctl {
                Some(j) => simctl_devices(j@),
                None => Seq::empty(),
            }) + (match devicectl {
                Some(j) => devicectl_devices(j@),
                None => Seq::empty(),
            }),
    {
        let mut r = match simctl {
            Some(j) => parse_simctl_devices(j),
            None => Vec::new(),
        };
        let mut more = match devicectl {
            Some(j) => parse_devicectl_devices(j),
            None => Vec::new(),
        };
        let ghost a = device_views(r@);
        let ghost b = device_views(more@);
        r.append(&mut more);
        assert(device_views(r@) =~= a + b);
        r
    }
}

} // verus!
