//! What the desktop shell checks before it acts.
use crate::text::{chars_of, is_blank, same, starts_with, trim, trimmed};
use vstd::prelude::*;

verus! {

/// A control character.
pub open spec fn is_control(c: char) -> bool {
    (c as u32) < 0x20 || 0x7f <= (c as u32) <= 0x9f
}

/// A URL that may be opened: of the web, and without control characters.
pub open spec fn web_url_ok(url: Seq<char>) -> bool {
    &&& "http://"@.is_prefix_of(url) || "https://"@.is_prefix_of(url)
    &&& forall|i: int| 0 <= i < url.len() ==> !is_control(#[trigger] url[i])
}

fn has_control(url: &str) -> (r: bool)
    ensures
        r == exists|i: int| 0 <= i < url@.len() && is_control(#[trigger] url@[i]),
{
    let v = chars_of(url);
    let mut i: usize = 0;
    while i < v.len()
        invariant
            i <= v@.len(),
            v@ == url@,
            forall|k: int| 0 <= k < i ==> !is_control(#[trigger] url@[k]),
        decreases v@.len() - i,
    {
        let n: u32 = v[i] as u32;
        if n < 0x20 || (0x7f <= n && n <= 0x9f) {
            assert(is_control(url@[i as int]));
            return true;
        }
        i = i + 1;
    }
    false
}

/// The URL to open, without surrounding white space.
pub fn validate_external_url(url: &str) -> (r: Result<String, String>)
    ensures
        web_url_ok(trimmed(url@)) ==> r is Ok && r->Ok_0@ == trimmed(url@),
        !web_url_ok(trimmed(url@)) ==> r is Err && r->Err_0@ == "Only http and https URLs can be opened"@,
{
    let url = trim(url);
    if (starts_with(url.as_str(), "http://") || starts_with(url.as_str(), "https://")) && !has_control(url.as_str()) {
        Ok(url)
    } else {
        Err("Only http and https URLs can be opened".to_string())
    }
}

/// A choice of region.
#[derive(Debug, Clone, Copy)]
pub struct RegionOption {
    pub value: &'static str,
    pub label: &'static str,
}

/// Values and labels of the regions of a provider.
pub open spec fn regions_of(provider: Seq<char>) -> Seq<(Seq<char>, Seq<char>)> {
    if provider == "alibaba"@ {
        seq![
            ("singapore"@, "Singapore"@),
            ("us"@, "United States"@),
            ("germany"@, "Germany"@),
            ("hongkong"@, "Hong Kong"@),
            ("cn"@, "China"@),
        ]
    } else if provider == "alibabatokenplan"@ {
        seq![
            ("cn"@, "China Team"@),
            ("intl"@, "International Team"@),
            ("cn-personal"@, "China Personal/Solo"@),
            ("intl-personal"@, "International Personal/Solo"@),
        ]
    } else if provider == "minimax"@ {
        seq![
            ("global"@, "Global (platform.minimax.io)"@),
            ("cn"@, "China mainland (platform.minimaxi.com)"@),
        ]
    } else {
        Seq::empty()
    }
}

pub open spec fn option_views(options: Seq<RegionOption>) -> Seq<(Seq<char>, Seq<char>)> {
    options.map_values(|o: RegionOption| (o.value@, o.label@))
}

/// The regions of a provider; none where it has no regions.
pub fn region_options_for(provider: &str) -> (r: Vec<RegionOption>)
    ensures
        option_views(r@) == regions_of(provider@),
{
    let r: Vec<RegionOption> = if same(provider, "alibaba") {
        vec![
            RegionOption { value: "singapore", label: "Singapore" },
            RegionOption { value: "us", label: "United States" },
            RegionOption { value: "germany", label: "Germany" },
            RegionOption { value: "hongkong", label: "Hong Kong" },
            RegionOption { value: "cn", label: "China" },
        ]
    } else if same(provider, "alibabatokenplan") {
        vec![
            RegionOption { value: "cn", label: "China Team" },
            RegionOption { value: "intl", label: "International Team" },
            RegionOption { value: "cn-personal", label: "China Personal/Solo" },
            RegionOption { value: "intl-personal", label: "International Personal/Solo" },
        ]
    } else if same(provider, "minimax") {
        vec![
            RegionOption { value: "global", label: "Global (platform.minimax.io)" },
            RegionOption { value: "cn", label: "China mainland (platform.minimaxi.com)" },
        ]
    } else {
        Vec::new()
    };
    proof {
        assert(option_views(r@) =~= regions_of(provider@));
    }
    r
}

/// Whether snapshots of an age are fresh.
pub open spec fn snapshots_are_fresh(age_millis: Option<u64>, stale_after_millis: u64) -> bool {
    age_millis is Some && age_millis->0 <= stale_after_millis
}

/// Whether cached snapshots are fresh: they were taken, and not too long ago.
pub fn is_provider_cache_fresh(age_millis: Option<u64>, stale_after_millis: u64) -> (r: bool)
    ensures
        r == snapshots_are_fresh(age_millis, stale_after_millis),
{
    match age_millis {
        Some(age) => age <= stale_after_millis,
        None => false,
    }
}

/// Whether a refresh is still the one that counts.
pub fn is_current_provider_refresh_generation(current: u64, generation: u64) -> (r: bool)
    ensures
        r == (current == generation),
{
    current == generation
}

/// Why a path is refused, if it is.
pub open spec fn path_error(path: Seq<char>, is_absolute: bool) -> Option<Seq<char>> {
    if trimmed(path).len() == 0 {
        Some("Path is empty"@)
    } else if !is_absolute {
        Some("Path must be absolute: "@ + path)
    } else {
        None
    }
}

/// Why a path is not opened, as far as its text tells.
pub fn check_open_path(path: &str, is_absolute: bool) -> (r: Result<(), String>)
    ensures
        match path_error(path@, is_absolute) {
            Some(error) => r is Err && r->Err_0@ == error,
            None => r is Ok,
        },
{
    let bare = trim(path);
    if is_blank(bare.as_str()) {
        return Err("Path is empty".to_string());
    }
    if !is_absolute {
        return Err(crate::text::concat2("Path must be absolute: ", path));
    }
    Ok(())
}

/// Only addresses of the web are opened, and none with a control character.
pub proof fn law_only_web_addresses_are_opened(url: Seq<char>, i: int)
    ensures
        web_url_ok(url) ==> "http://"@.is_prefix_of(url) || "https://"@.is_prefix_of(url),
        0 <= i < url.len() && ((url[i] as u32) < 0x20 || 0x7f <= (url[i] as u32) <= 0x9f) ==> !web_url_ok(url),
        ("http://"@.is_prefix_of(url) || "https://"@.is_prefix_of(url)) && (forall|j: int|
            0 <= j < url.len() ==> 0x20 <= (#[trigger] url[j] as u32) && !(0x7f <= (url[j] as u32) <= 0x9f))
            ==> web_url_ok(url),
{
}

/// The regions of the providers that have any.
pub proof fn law_regions_are_listed(provider: Seq<char>)
    ensures
        ({
            let token = regions_of("alibabatokenplan"@);
            let minimax = regions_of("minimax"@);
            let alibaba = regions_of("alibaba"@);
            &&& token.len() == 4 && token[0] == ("cn"@, "China Team"@) && token[1] == ("intl"@, "International Team"@)
            &&& token[2] == ("cn-personal"@, "China Personal/Solo"@)
            &&& token[3] == ("intl-personal"@, "International Personal/Solo"@)
            &&& minimax.len() == 2 && minimax[0] == ("global"@, "Global (platform.minimax.io)"@)
            &&& minimax[1] == ("cn"@, "China mainland (platform.minimaxi.com)"@)
            &&& alibaba.len() == 5 && alibaba[0].0 == "singapore"@ && alibaba[1].0 == "us"@
            &&& alibaba[2].0 == "germany"@ && alibaba[3].0 == "hongkong"@ && alibaba[4].0 == "cn"@
            &&& provider != "alibaba"@ && provider != "alibabatokenplan"@ && provider != "minimax"@ ==> regions_of(
                provider,
            ).len() == 0
        }),
{
    reveal_strlit("alibaba");
    reveal_strlit("alibabatokenplan");
    reveal_strlit("minimax");
    assert("alibaba"@.len() == 7 && "alibabatokenplan"@.len() == 16 && "minimax"@.len() == 7 && "alibaba"@[0] == 'a'
        && "minimax"@[0] == 'm');
}

/// Snapshots that were never taken are not fresh; others are until they are older than allowed.
pub proof fn law_snapshots_grow_stale(age: u64, limit: u64)
    ensures
        !snapshots_are_fresh(None, limit),
        snapshots_are_fresh(Some(age), limit) <==> !(age > limit),
        snapshots_are_fresh(Some(limit), limit),
{
}

/// Only an absolute path that is not blank is opened.
pub proof fn law_only_absolute_paths_are_opened(path: Seq<char>, is_absolute: bool)
    ensures
        path_error(path, is_absolute) is None <==> is_absolute && trimmed(path).len() != 0,
        path_error(path, false) is Some,
        trimmed(path).len() == 0 ==> path_error(path, is_absolute) == Some("Path is empty"@),
        trimmed(path).len() > 0 ==> path_error(path, false) == Some("Path must be absolute: "@ + path),
{
}

} // verus!
