//! Reading the answer of GitHub's "latest release" query.
use vstd::prelude::*;

use crate::modules::downloader::domain::entities::ReleaseInfo;
use crate::modules::downloader::domain::version::strip_v;

verus! {

/// Where the newest release of the application is published.
pub fn latest_release_url() -> (r: &'static str)
    ensures
        r@ == "https://api.github.com/repos/pausegarra/pullryn/releases/latest"@,
{
    "https://api.github.com/repos/pausegarra/pullryn/releases/latest"
}

/// The `User-Agent` the release query is sent with.
pub fn release_user_agent() -> (r: &'static str)
    ensures
        r@ == "pullryn update-check"@,
{
    "pullryn update-check"
}

/// The release a tag names: its version is the tag without a leading `v`.
pub fn release_info_from_tag(tag_name: &str, html_url: &str) -> (r: ReleaseInfo)
    ensures
        r@.version == strip_v(tag_name@),
        r@.url == html_url@,
{
    let v = crate::text::chars_of(tag_name);
    let start: usize = if v.len() > 0 && v[0] == 'v' { 1 } else { 0 };
    let version = crate::text::string_of(&v, start, v.len());
    assert(v@.subrange(start as int, v.len() as int) == strip_v(tag_name@));
    ReleaseInfo { version, url: crate::text::owned(html_url) }
}

} // verus!
