//! Version comparison and the decisions of the desktop companion's software
//! updater: which release is newer and what an update check reports.
use vstd::prelude::*;
use crate::number::{parse_u32, parse_u32_chars};
use crate::split::{split_char, split_on, lemma_split_char_nonempty};
use crate::config::strs;
use crate::devices::opt_str;
use crate::json::{field_text, json_fields, json_fields_of, json_records, json_records_of, rec_text, record_view, records_view};
use crate::text::{chars_of, chars_eq, concat_str, owned, trim, trim_start_char, trim_start_matches, trim_ws};

verus! {

/// A version string with surrounding whitespace and any leading `v`s, then
/// any leading `V`s, removed.
pub open spec fn clean_version(v: Seq<char>) -> Seq<char> {
    trim_start_char(trim_start_char(trim(v), 'v'), 'V')
}

/// The numeric value of dot-separated field `k`: 0 when the field is missing
/// or is not a `u32`.
pub open spec fn version_field(parts: Seq<Seq<char>>, k: int) -> u32 {
    if 0 <= k < parts.len() {
        match parse_u32(parts[k]) {
            Some(n) => n,
            None => 0,
        }
    } else {
        0
    }
}

/// The (major, minor, patch) triple that a version string stands for.
pub open spec fn version_tuple(v: Seq<char>) -> (u32, u32, u32) {
    let parts = split_char(clean_version(v), '.');
    (version_field(parts, 0), version_field(parts, 1), version_field(parts, 2))
}

/// Lexicographic "greater than" on version triples.
pub open spec fn triple_gt(a: (u32, u32, u32), b: (u32, u32, u32)) -> bool {
    a.0 > b.0 || (a.0 == b.0 && (a.1 > b.1 || (a.1 == b.1 && a.2 > b.2)))
}

/// `latest` names a strictly newer version than `current`.
pub open spec fn version_newer(latest: Seq<char>, current: Seq<char>) -> bool {
    triple_gt(version_tuple(latest), version_tuple(current))
}

/// Parses a version such as `v1.2.3` into its three numeric fields. Missing
/// or malformed fields count as 0; fields after the third are ignored.
pub fn parse_version_tuple(v: &str) -> (r: (u32, u32, u32))
    ensures
        r == version_tuple(v@),
{
    let s = chars_of(v);
    let t = trim_ws(s.as_slice());
    let a = trim_start_matches(t.as_slice(), 'v');
    let clean = trim_start_matches(a.as_slice(), 'V');
    let parts = split_on(clean.as_slice(), '.');
    proof {
        lemma_split_char_nonempty(clean@, '.');
    }
    let major = field(&parts, 0);
    let minor = field(&parts, 1);
    let patch = field(&parts, 2);
    (major, minor, patch)
}

/// The numeric value of field `k` of the split version.
fn field(parts: &Vec<Vec<char>>, k: usize) -> (n: u32)
    ensures
        forall|sp: Seq<Seq<char>>|
            sp.len() == parts@.len() && (forall|j: int|
                0 <= j < sp.len() ==> #[trigger] sp[j] == parts@[j]@) ==> n == version_field(
                sp,
                k as int,
            ),
{
    if k < parts.len() {
        match parse_u32_chars(parts[k].as_slice()) {
            Some(n) => n,
            None => 0,
        }
    } else {
        0
    }
}

/// Whether `latest` is a strictly newer version than `current`, comparing
/// (major, minor, patch) in that order.
pub fn is_version_newer(latest: &str, current: &str) -> (b: bool)
    ensures
        b == version_newer(latest@, current@),
{
    let l = parse_version_tuple(latest);
    let c = parse_version_tuple(current);
    l.0 > c.0 || (l.0 == c.0 && (l.1 > c.1 || (l.1 == c.1 && l.2 > c.2)))
}

/// No version is newer than itself.
pub proof fn law_version_newer_irreflexive(v: Seq<char>)
    ensures
        !version_newer(v, v),
{
}

/// If `a` is newer than `b`, then `b` is not newer than `a`.
pub proof fn law_version_newer_asymmetric(a: Seq<char>, b: Seq<char>)
    ensures
        version_newer(a, b) ==> !version_newer(b, a),
{
}

/// Newer-than is transitive.
pub proof fn law_version_newer_transitive(a: Seq<char>, b: Seq<char>, c: Seq<char>)
    ensures
        version_newer(a, b) && version_newer(b, c) ==> version_newer(a, c),
{
}

/// Two versions whose numeric fields differ are ordered one way or the other;
/// versions with equal fields are never newer than each other.
pub proof fn law_version_newer_total(a: Seq<char>, b: Seq<char>)
    ensures
        version_tuple(a) != version_tuple(b) ==> version_newer(a, b) || version_newer(b, a),
        version_tuple(a) == version_tuple(b) ==> !version_newer(a, b) && !version_newer(b, a),
{
}


/// What an update check reports to the companion app.
pub struct UpdateCheckResponse {
    pub current_version: String,
    pub latest_version: String,
    pub update_available: bool,
    pub release_name: String,
    pub release_notes: String,
    pub published_at: String,
    pub download_url: Option<String>,
    pub html_url: String,
    pub target_platform: String,
}

/// A request to install the update found at `download_url`.
pub struct UpdateInstallRequest {
    pub download_url: String,
}

/// One downloadable file of a published release; a field is `None` where the
/// release feed held no string for it.
pub struct ReleaseAsset {
    pub name: Option<String>,
    pub browser_download_url: Option<String>,
}

/// The fields of the latest published release that an update check reads;
/// a field is `None` where the release feed held no string (or no list) for it.
pub struct LatestRelease {
    pub tag_name: Option<String>,
    pub name: Option<String>,
    pub body: Option<String>,
    pub published_at: Option<String>,
    pub html_url: Option<String>,
    pub assets: Option<Vec<ReleaseAsset>>,
}

/// The page that lists all releases.
pub open spec fn releases_page() -> Seq<char> {
    "https://github.com/cmdworks/devflow/releases"@
}

/// The text of an optional string.
pub open spec fn opt_view(o: Option<String>) -> Option<Seq<char>> {
    match o {
        Some(s) => Some(s@),
        None => None,
    }
}

/// `o`'s text, or `d` when `o` is `None`.
pub open spec fn text_or(o: Option<Seq<char>>, d: Seq<char>) -> Seq<char> {
    match o {
        Some(s) => s,
        None => d,
    }
}

/// The contents of a release asset.
pub struct AssetView {
    pub name: Option<Seq<char>>,
    pub url: Option<Seq<char>>,
}

/// The contents of a release.
pub struct ReleaseView {
    pub tag_name: Option<Seq<char>>,
    pub name: Option<Seq<char>>,
    pub body: Option<Seq<char>>,
    pub published_at: Option<Seq<char>>,
    pub html_url: Option<Seq<char>>,
    pub assets: Option<Seq<AssetView>>,
}

/// The contents of an asset.
pub open spec fn asset_view(a: ReleaseAsset) -> AssetView {
    AssetView { name: opt_view(a.name), url: opt_view(a.browser_download_url) }
}

/// The contents of a list of assets.
pub open spec fn asset_views(s: Seq<ReleaseAsset>) -> Seq<AssetView> {
    s.map_values(|a: ReleaseAsset| asset_view(a))
}

/// The contents of a release.
pub open spec fn release_view(r: LatestRelease) -> ReleaseView {
    ReleaseView {
        tag_name: opt_view(r.tag_name),
        name: opt_view(r.name),
        body: opt_view(r.body),
        published_at: opt_view(r.published_at),
        html_url: opt_view(r.html_url),
        assets: match r.assets {
            Some(list) => Some(asset_views(list@)),
            None => None,
        },
    }
}

/// `os-arch`, the platform an update is looked for.
pub open spec fn spec_target_platform(os: Seq<char>, arch: Seq<char>) -> Seq<char> {
    os + "-"@ + arch
}

/// `devflow-gui-os-arch.tar.gz`, the archive name of an update for a platform.
pub open spec fn spec_asset_name(os: Seq<char>, arch: Seq<char>) -> Seq<char> {
    "devflow-gui-"@ + os + "-"@ + arch + ".tar.gz"@
}

/// The asset is named `wanted`.
pub open spec fn asset_named(a: AssetView, wanted: Seq<char>) -> bool {
    a.name == Some(wanted)
}

/// Index of the first asset whose name is `wanted`, if any.
pub open spec fn first_asset_named(assets: Seq<AssetView>, wanted: Seq<char>) -> Option<int> {
    if exists|i: int| 0 <= i < assets.len() && asset_named(assets[i], wanted) {
        Some(
            choose|i: int|
                0 <= i < assets.len() && asset_named(assets[i], wanted) && forall|j: int|
                    0 <= j < i ==> !asset_named(#[trigger] assets[j], wanted),
        )
    } else {
        None
    }
}

/// The download link that an update check reports: that of the first asset
/// named `wanted` (possibly none), or none when no asset has that name.
pub open spec fn spec_download_url(rel: ReleaseView, wanted: Seq<char>) -> Option<Seq<char>> {
    match rel.assets {
        Some(list) => match first_asset_named(list, wanted) {
            Some(i) => list[i].url,
            None => None,
        },
        None => None,
    }
}

/// What an update check reports, given the running version, the platform,
/// and the latest release when it could be fetched and read (`None` when the
/// fetch failed or its reply was not a JSON document).
///
/// With no release, the running version is reported as the latest and no
/// update is available. With a release, the tag without leading `v`s is the
/// latest version (the running one when that is empty); an update is available
/// when that tag is non-empty and newer; the archive for the platform is
/// looked for among the assets by name.
pub open spec fn check_reply(
    r: UpdateCheckResponse,
    current: Seq<char>,
    os: Seq<char>,
    arch: Seq<char>,
    release: Option<ReleaseView>,
) -> bool {
    &&& r.current_version@ == current
    &&& r.target_platform@ == spec_target_platform(os, arch)
    &&& match release {
        None => {
            &&& r.latest_version@ == current
            &&& !r.update_available
            &&& r.release_name@ == "DevFlow"@
            &&& r.release_notes@ == Seq::<char>::empty()
            &&& r.published_at@ == Seq::<char>::empty()
            &&& r.download_url is None
            &&& r.html_url@ == releases_page()
        },
        Some(rel) => {
            let tag = text_or(rel.tag_name, Seq::empty());
            let latest = trim_start_char(tag, 'v');
            &&& r.latest_version@ == (if latest.len() == 0 {
                current
            } else {
                latest
            })
            &&& r.update_available == (latest.len() > 0 && version_newer(latest, current))
            &&& r.release_name@ == text_or(rel.name, tag)
            &&& r.release_notes@ == text_or(rel.body, Seq::empty())
            &&& r.published_at@ == text_or(rel.published_at, Seq::empty())
            &&& r.html_url@ == text_or(rel.html_url, releases_page())
            &&& opt_view(r.download_url) == spec_download_url(rel, spec_asset_name(os, arch))
        },
    }
}

fn clone_string(s: &String) -> (r: String)
    ensures
        r@ == s@,
{
    owned(s.as_str())
}

fn text_or_exec(o: &Option<String>, d: &str) -> (r: String)
    ensures
        r@ == text_or(opt_view(*o), d@),
{
    match o {
        Some(s) => clone_string(s),
        None => owned(d),
    }
}

/// The download link of the first asset named `wanted`.
fn find_download_url(assets: &Vec<ReleaseAsset>, wanted: &str) -> (r: Option<String>)
    ensures
        opt_view(r) == match first_asset_named(asset_views(assets@), wanted@) {
            Some(i) => asset_views(assets@)[i].url,
            None => None,
        },
{
    let ghost av = asset_views(assets@);
    let w = chars_of(wanted);
    let mut i: usize = 0;
    while i < assets.len()
        invariant
            i <= assets@.len(),
            w@ == wanted@,
            av == asset_views(assets@),
            forall|j: int| 0 <= j < i ==> !asset_named(#[trigger] av[j], wanted@),
        decreases assets@.len() - i,
    {
        let hit = match &assets[i].name {
            Some(n) => {
                let nc = chars_of(n.as_str());
                chars_eq(nc.as_slice(), w.as_slice())
            },
            None => false,
        };
        assert(hit == asset_named(av[i as int], wanted@));
        if hit {
            proof {
                let k = i as int;
                let c = choose|c: int|
                    0 <= c < av.len() && asset_named(av[c], wanted@) && forall|j: int|
                        0 <= j < c ==> !asset_named(#[trigger] av[j], wanted@);
                assert(c == k) by {
                    if c < k {
                        assert(!asset_named(av[c], wanted@));
                    } else if c > k {
                        assert(!asset_named(av[k], wanted@));
                    }
                }
            }
            return match &assets[i].browser_download_url {
                Some(u) => Some(clone_string(u)),
                None => None,
            };
        }
        i = i + 1;
    }
    None
}

/// What an update check reports (see `check_reply`).
pub fn update_check_response(
    current: &str,
    os_name: &str,
    arch_name: &str,
    release: Option<&LatestRelease>,
) -> (r: UpdateCheckResponse)
    ensures
        check_reply(
            r,
            current@,
            os_name@,
            arch_name@,
            match release {
                Some(rel) => Some(release_view(*rel)),
                None => None,
            },
        ),
{
    let dash = concat_str(os_name, "-");
    let target_platform = concat_str(dash.as_str(), arch_name);
    match release {
        None => {
            let r = UpdateCheckResponse {
                current_version: owned(current),
                latest_version: owned(current),
                update_available: false,
                release_name: owned("DevFlow"),
                release_notes: String::new(),
                published_at: String::new(),
                download_url: None,
                html_url: owned("https://github.com/cmdworks/devflow/releases"),
                target_platform,
            };
            assert(check_reply(r, current@, os_name@, arch_name@, None));
            r
        },
        Some(rel) => {
            proof {
                reveal_strlit("");
            }
            let tag_name = text_or_exec(&rel.tag_name, "");
            let tag_chars = chars_of(tag_name.as_str());
            let latest_chars = trim_start_matches(tag_chars.as_slice(), 'v');
            let latest_clean = crate::text::string_of(latest_chars.as_slice());
            let update_available = latest_chars.len() > 0 && is_version_newer(
                latest_clean.as_str(),
                current,
            );
            let release_name = text_or_exec(&rel.name, tag_name.as_str());
            let release_notes = text_or_exec(&rel.body, "");
            let published_at = text_or_exec(&rel.published_at, "");
            let html_url = text_or_exec(
                &rel.html_url,
                "https://github.com/cmdworks/devflow/releases",
            );
            let a1 = concat_str("devflow-gui-", os_name);
            let a2 = concat_str(a1.as_str(), "-");
            let a3 = concat_str(a2.as_str(), arch_name);
            let expected_asset = concat_str(a3.as_str(), ".tar.gz");
            let download_url = match &rel.assets {
                Some(list) => find_download_url(list, expected_asset.as_str()),
                None => None,
            };
            let latest_version = if latest_chars.len() == 0 {
                owned(current)
            } else {
                latest_clean
            };
            let r = UpdateCheckResponse {
                current_version: owned(current),
                latest_version,
                update_available,
                release_name,
                release_notes,
                published_at,
                download_url,
                html_url,
                target_platform,
            };
            proof {
                let rv = release_view(*rel);
                assert(r.release_name@ == text_or(rv.name, text_or(rv.tag_name, Seq::empty())));
                assert(r.release_notes@ == text_or(rv.body, Seq::empty()));
                assert(r.published_at@ == text_or(rv.published_at, Seq::empty()));
                assert(check_reply(r, current@, os_name@, arch_name@, Some(rv)));
            }
            r
        },
    }
}

/// The fields of a release read from the release feed.
pub open spec fn release_fields() -> Seq<Seq<char>> {
    seq!["/tag_name"@, "/name"@, "/body"@, "/published_at"@, "/html_url"@]
}

/// The fields of an asset read from the release feed.
pub open spec fn asset_fields() -> Seq<Seq<char>> {
    seq!["/name"@, "/browser_download_url"@]
}

/// The asset one item of the feed's `assets` describes.
pub open spec fn asset_from(rec: Seq<Option<(Option<Seq<char>>, Option<bool>)>>) -> AssetView {
    AssetView { name: field_text(rec, 0), url: field_text(rec, 1) }
}

/// The release the feed `json` describes: each field the string found under
/// its name (none where there is no string), the assets those of the
/// `assets` array (none where there is no array); no release when the feed
/// is not JSON.
pub open spec fn spec_release(json: Seq<u8>) -> Option<ReleaseView> {
    match json_fields_of(json, release_fields()) {
        None => None,
        Some(rec) => Some(
            ReleaseView {
                tag_name: field_text(rec, 0),
                name: field_text(rec, 1),
                body: field_text(rec, 2),
                published_at: field_text(rec, 3),
                html_url: field_text(rec, 4),
                assets: match json_records_of(json, "/assets"@, asset_fields()) {
                    Some(Some(items)) => Some(
                        items.map_values(|i: Seq<Option<(Option<Seq<char>>, Option<bool>)>>| asset_from(i)),
                    ),
                    _ => None,
                },
            },
        ),
    }
}

fn owned_opt(o: Option<&str>) -> (r: Option<String>)
    ensures
        opt_view(r) == opt_str(o),
{
    match o {
        Some(s) => Some(owned(s)),
        None => None,
    }
}

/// Reads the latest release from the text of the release feed (see
/// `spec_release`).
pub fn parse_latest_release(json: &[u8]) -> (r: Option<LatestRelease>)
    ensures
        match r {
            Some(rel) => spec_release(json@) == Some(release_view(rel)),
            None => spec_release(json@) is None,
        },
{
    let fields = vec![
        owned("/tag_name"),
        owned("/name"),
        owned("/body"),
        owned("/published_at"),
        owned("/html_url"),
    ];
    assert(strs(fields@) =~= release_fields());
    let rec = match json_fields(json, &fields) {
        Some(v) => v,
        None => return None,
    };
    let afields = vec![owned("/name"), owned("/browser_download_url")];
    assert(strs(afields@) =~= asset_fields());
    let assets = match json_records(json, "/assets", &afields) {
        Some(Some(items)) => {
            let ghost iv = records_view(items@);
            let mut list: Vec<ReleaseAsset> = Vec::new();
            let mut j: usize = 0;
            while j < items.len()
                invariant
                    j <= items@.len(),
                    iv == records_view(items@),
                    list@.len() == j,
                    forall|k: int| 0 <= k < j ==> asset_view(#[trigger] list@[k]) == asset_from(iv[k]),
                decreases items@.len() - j,
            {
                let it = &items[j];
                assert(iv[j as int] == record_view(*it));
                let a = ReleaseAsset { name: owned_opt(rec_text(it, 0)), browser_download_url: owned_opt(rec_text(it, 1)) };
                list.push(a);
                j = j + 1;
            }
            assert(asset_views(list@) =~= iv.map_values(
                |i: Seq<Option<(Option<Seq<char>>, Option<bool>)>>| asset_from(i),
            ));
            Some(list)
        },
        _ => None,
    };
    let rel = LatestRelease {
        tag_name: owned_opt(rec_text(&rec, 0)),
        name: owned_opt(rec_text(&rec, 1)),
        body: owned_opt(rec_text(&rec, 2)),
        published_at: owned_opt(rec_text(&rec, 3)),
        html_url: owned_opt(rec_text(&rec, 4)),
        assets,
    };
    Some(rel)
}

/// What an update check reports given what fetching the release feed gave:
/// its text, or `None` when the fetch failed (see `check_reply` and
/// `spec_release`).
pub fn updater_check_reply(current: &str, os_name: &str, arch_name: &str, fetched: Option<&[u8]>) -> (r: UpdateCheckResponse)
    ensures
        check_reply(
            r,
            current@,
            os_name@,
            arch_name@,
            match fetched {
                Some(b) => spec_release(b@),
                None => None,
            },
        ),
{
    let release = match fetched {
        Some(b) => parse_latest_release(b),
        None => None,
    };
    match &release {
        Some(rel) => update_check_response(current, os_name, arch_name, Some(rel)),
        None => update_check_response(current, os_name, arch_name, None),
    }
}

/// An install request is refused, with this message, when its download link
/// is blank; otherwise `None` and the install goes ahead with the trimmed link.
pub fn install_request_error(req: &UpdateInstallRequest) -> (r: Option<String>)
    ensures
        r is Some <==> trim(req.download_url@).len() == 0,
        r matches Some(m) ==> m@ == "Download URL cannot be empty"@,
{
    let c = chars_of(req.download_url.as_str());
    proof {
        reveal_strlit("Download URL cannot be empty");
    }
    let t = trim_ws(c.as_slice());
    if t.len() == 0 {
        Some(owned("Download URL cannot be empty"))
    } else {
        None
    }
}

} // verus!
