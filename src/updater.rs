use crate::text::{
    chars_of, contains, contains_chars, lower_of, lowercase, parse_u32, parse_u32_spec, pieces,
    slice_of, split, split_ranges, string_of,
};
use vstd::prelude::*;

verus! {

/// Whether an update is available, and what is known of it.
#[derive(Debug, Clone)]
pub struct UpdateInfo {
    pub available: bool,
    pub current_version: String,
    pub latest_version: String,
    pub download_url: Option<String>,
    pub release_notes: Option<String>,
    pub published_at: Option<String>,
}

/// One downloadable file of a release.
#[derive(Debug, Clone)]
pub struct GitHubAsset {
    pub name: String,
    pub browser_download_url: String,
}

/// The latest release, as the update feed describes it.
#[derive(Debug, Clone)]
pub struct GitHubRelease {
    pub tag_name: String,
    pub body: Option<String>,
    pub published_at: Option<String>,
    pub html_url: String,
    pub assets: Vec<GitHubAsset>,
}

/// The numbers of the dot-separated fields of `fields` that parse as `u32`,
/// in order; the others are skipped.
pub open spec fn numeric_fields(fields: Seq<Seq<char>>) -> Seq<u32>
    decreases fields.len(),
{
    if fields.len() == 0 {
        Seq::empty()
    } else {
        let rest = numeric_fields(fields.drop_last());
        match parse_u32_spec(fields.last()) {
            Some(n) => rest.push(n),
            None => rest,
        }
    }
}

/// The numeric components of a version string such as `3.0.1`.
pub open spec fn version_numbers(v: Seq<char>) -> Seq<u32> {
    numeric_fields(split(v, seq!['.']))
}

/// Component `i` of a version, zero where it has none.
pub open spec fn component(v: Seq<u32>, i: int) -> u32 {
    if 0 <= i < v.len() {
        v[i]
    } else {
        0
    }
}

/// `latest` is a newer version than `current`, comparing the first three
/// components in order.
pub open spec fn newer(current: Seq<u32>, latest: Seq<u32>) -> bool {
    let (c0, c1, c2) = (component(current, 0), component(current, 1), component(current, 2));
    let (l0, l1, l2) = (component(latest, 0), component(latest, 1), component(latest, 2));
    l0 > c0 || (l0 == c0 && (l1 > c1 || (l1 == c1 && l2 > c2)))
}

/// The numeric components of the version `v`.
fn version_parts(v: &str) -> (r: Vec<u32>)
    ensures
        r@ == version_numbers(v@),
{
    let s = chars_of(v);
    let dot = vec!['.'];
    let ranges = split_ranges(s.as_slice(), dot.as_slice());
    assert(dot@ =~= seq!['.']);
    let ghost fields = pieces(s@, ranges@);
    let mut out: Vec<u32> = Vec::new();
    let mut i: usize = 0;
    while i < ranges.len()
        invariant
            i <= ranges@.len(),
            fields == pieces(s@, ranges@),
            forall|k: int| 0 <= k < ranges@.len() ==> (#[trigger] ranges@[k]).0 <= ranges@[k].1 <= s@.len(),
            out@ == numeric_fields(fields.subrange(0, i as int)),
        decreases ranges@.len() - i,
    {
        let (lo, hi) = ranges[i];
        let field = slice_of(s.as_slice(), lo, hi);
        assert(fields.subrange(0, i + 1).drop_last() =~= fields.subrange(0, i as int));
        assert(field@ == fields[i as int]);
        match parse_u32(field.as_slice()) {
            Some(n) => out.push(n),
            None => {},
        }
        i = i + 1;
    }
    assert(fields.subrange(0, i as int) =~= fields);
    out
}

/// Whether `latest` names a newer version than `current`: the dot-separated
/// numeric fields are compared, the first three only, a missing one counting
/// as zero.
pub fn is_newer_version(current: &str, latest: &str) -> (r: bool)
    ensures
        r == newer(version_numbers(current@), version_numbers(latest@)),
{
    let curr = version_parts(current);
    let lat = version_parts(latest);
    let mut i: usize = 0;
    while i < 3
        invariant
            i <= 3,
            curr@ == version_numbers(current@),
            lat@ == version_numbers(latest@),
            forall|j: int| 0 <= j < i ==> component(curr@, j) == component(lat@, j),
        decreases 3 - i,
    {
        let c: u32 = if i < curr.len() {
            curr[i]
        } else {
            0
        };
        let l: u32 = if i < lat.len() {
            lat[i]
        } else {
            0
        };
        if l > c {
            return true;
        }
        if l < c {
            return false;
        }
        i = i + 1;
    }
    false
}

/// The keyword that names the platform `os` (as `std::env::consts::OS`
/// writes it) in release asset names.
pub open spec fn platform_keyword_spec(os: Seq<char>) -> Seq<char> {
    if os == "windows"@ {
        "windows"@
    } else if os == "macos"@ {
        "darwin"@
    } else {
        "linux"@
    }
}

/// The keyword that names the platform `os` in release asset names.
pub fn platform_keyword(os: &str) -> (r: String)
    ensures
        r@ == platform_keyword_spec(os@),
{
    let s = chars_of(os);
    let w = chars_of("windows");
    let m = chars_of("macos");
    if vec_eq(&s, &w) {
        "windows".to_owned()
    } else if vec_eq(&s, &m) {
        "darwin".to_owned()
    } else {
        "linux".to_owned()
    }
}

fn vec_eq(a: &Vec<char>, b: &Vec<char>) -> (r: bool)
    ensures
        r == (a@ == b@),
{
    if a.len() != b.len() {
        return false;
    }
    let mut i: usize = 0;
    while i < a.len()
        invariant
            a@.len() == b@.len(),
            i <= a@.len(),
            forall|j: int| 0 <= j < i ==> a@[j] == b@[j],
        decreases a@.len() - i,
    {
        if a[i] != b[i] {
            return false;
        }
        i = i + 1;
    }
    assert(a@ =~= b@);
    true
}

/// `i` is the position of the first of `names` that contains `target`.
pub open spec fn first_containing(names: Seq<Seq<char>>, target: Seq<char>, i: int) -> bool {
    0 <= i < names.len() && contains(names[i], target) && forall|j: int|
        0 <= j < i ==> !contains(#[trigger] names[j], target)
}

/// The position of the first of `names` that contains `target`, or `None`
/// when none does.
pub fn position_containing(names: &Vec<String>, target: &str) -> (r: Option<usize>)
    ensures
        match r {
            Some(i) => first_containing(names@.map_values(|n: String| n@), target@, i as int),
            None => forall|j: int|
                0 <= j < names@.len() ==> !contains(#[trigger] names@[j]@, target@),
        },
{
    let t = chars_of(target);
    let mut i: usize = 0;
    while i < names.len()
        invariant
            i <= names@.len(),
            t@ == target@,
            forall|j: int| 0 <= j < i ==> !contains(#[trigger] names@[j]@, target@),
        decreases names@.len() - i,
    {
        let n = chars_of(names[i].as_str());
        if contains_chars(n.as_slice(), t.as_slice()) {
            let ghost m = names@.map_values(|n: String| n@);
            assert forall|j: int| 0 <= j < i implies !contains(#[trigger] m[j], target@) by {
                assert(m[j] == names@[j]@);
            }
            return Some(i);
        }
        i = i + 1;
    }
    None
}

/// The names of `assets`, lower-cased.
pub open spec fn lowered_names(assets: Seq<GitHubAsset>) -> Seq<Seq<char>> {
    assets.map_values(|a: GitHubAsset| lower_of(a.name@))
}

/// The download address of the first asset whose lower-cased name contains
/// the platform keyword `target`, or `None` when none does.
pub fn find_platform_asset(assets: &[GitHubAsset], target: &str) -> (r: Option<String>)
    ensures
        match r {
            Some(u) => exists|i: int|
                first_containing(lowered_names(assets@), target@, i) && u@
                    == assets@[i].browser_download_url@,
            None => forall|j: int|
                0 <= j < assets@.len() ==> !contains(#[trigger] lowered_names(assets@)[j], target@),
        },
{
    let mut lowered: Vec<String> = Vec::new();
    let mut i: usize = 0;
    while i < assets.len()
        invariant
            i <= assets@.len(),
            lowered@.len() == i,
            forall|j: int| 0 <= j < i ==> #[trigger] lowered@[j]@ == lower_of(assets@[j].name@),
        decreases assets@.len() - i,
    {
        lowered.push(lowercase(assets[i].name.as_str()));
        i = i + 1;
    }
    let ghost names = lowered@.map_values(|n: String| n@);
    assert(names =~= lowered_names(assets@));
    match position_containing(&lowered, target) {
        Some(k) => {
            assert(first_containing(lowered_names(assets@), target@, k as int));
            Some(assets[k].browser_download_url.clone())
        },
        None => {
            assert forall|j: int| 0 <= j < assets@.len() implies !contains(
                #[trigger] lowered_names(assets@)[j],
                target@,
            ) by {
                assert(lowered@[j]@ == names[j]);
            }
            None
        },
    }
}

/// `s` without its leading `v`s, as `trim_start_matches('v')` leaves it.
pub open spec fn strip_v(s: Seq<char>) -> Seq<char>
    decreases s.len(),
{
    if s.len() > 0 && s[0] == 'v' {
        strip_v(s.drop_first())
    } else {
        s
    }
}

/// The version that a release tag names: the tag without its leading `v`s.
pub fn tag_version(tag: &str) -> (r: String)
    ensures
        r@ == strip_v(tag@),
{
    let s = chars_of(tag);
    let n = s.len();
    let mut lo: usize = 0;
    assert(s@.subrange(0, n as int) =~= s@);
    while lo < n && s[lo] == 'v'
        invariant
            lo <= n == s@.len(),
            strip_v(s@) == strip_v(s@.subrange(lo as int, n as int)),
        decreases n - lo,
    {
        assert(s@.subrange(lo as int, n as int).drop_first() =~= s@.subrange(lo + 1, n as int));
        lo = lo + 1;
    }
    let rest = slice_of(s.as_slice(), lo, n);
    string_of(rest.as_slice())
}

/// What is reported when the update feed answered with an error status:
/// no update, and the latest version unknown.
pub fn unknown_update(current_version: String) -> (r: UpdateInfo)
    ensures
        !r.available,
        r.current_version@ == current_version@,
        r.latest_version@ == "unknown"@,
        r.download_url is None,
        r.release_notes is None,
        r.published_at is None,
{
    UpdateInfo {
        available: false,
        current_version,
        latest_version: "unknown".to_owned(),
        download_url: None,
        release_notes: None,
        published_at: None,
    }
}

/// What is reported of the latest release `release`, for a program at
/// `current_version` on the platform named by the keyword `target`.
pub fn update_from_release(current_version: String, release: GitHubRelease, target: &str) -> (r:
    UpdateInfo)
    ensures
        r.current_version@ == current_version@,
        r.latest_version@ == strip_v(release.tag_name@),
        r.available == newer(
            version_numbers(current_version@),
            version_numbers(strip_v(release.tag_name@)),
        ),
        match r.download_url {
            Some(u) => exists|i: int|
                first_containing(lowered_names(release.assets@), target@, i) && u@
                    == release.assets@[i].browser_download_url@,
            None => forall|j: int|
                0 <= j < release.assets@.len() ==> !contains(
                    #[trigger] lowered_names(release.assets@)[j],
                    target@,
                ),
        },
        r.release_notes == release.body,
        r.published_at == release.published_at,
{
    let latest_version = tag_version(release.tag_name.as_str());
    let available = is_newer_version(current_version.as_str(), latest_version.as_str());
    let download_url = find_platform_asset(release.assets.as_slice(), target);
    UpdateInfo {
        available,
        current_version,
        latest_version,
        download_url,
        release_notes: release.body,
        published_at: release.published_at,
    }
}

} // verus!
