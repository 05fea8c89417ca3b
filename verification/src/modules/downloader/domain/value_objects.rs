use vstd::prelude::*;

use super::errors::DownloaderError;
use crate::text::{contains, trim};

verus! {

/// Whether a (trimmed) link is accepted as a YouTube video link.
pub open spec fn is_youtube_link(s: Seq<char>) -> bool {
    contains(s, "youtube.com/watch"@) || contains(s, "youtu.be/"@)
}

/// A YouTube video link, with the white space around it removed.
#[derive(Debug)]
pub struct YoutubeUrl(String);

impl View for YoutubeUrl {
    type V = Seq<char>;

    closed spec fn view(&self) -> Seq<char> {
        self.0@
    }
}

impl Clone for YoutubeUrl {
    fn clone(&self) -> (r: Self)
        ensures
            r@ == self@,
    {
        YoutubeUrl(self.0.clone())
    }
}

impl YoutubeUrl {
    /// Accepts `raw` when, trimmed, it holds `youtube.com/watch` or `youtu.be/`;
    /// the link kept is the trimmed text.
    pub fn parse(raw: &str) -> (r: Result<Self, DownloaderError>)
        ensures
            r is Ok <==> is_youtube_link(trim(raw@)),
            r matches Ok(u) ==> u@ == trim(raw@),
            r matches Err(e) ==> e is InvalidUrl,
    {
        let normalized = crate::text::trim_str(raw);
        let is_valid = crate::text::str_contains(normalized.as_str(), "youtube.com/watch")
            || crate::text::str_contains(normalized.as_str(), "youtu.be/");
        if is_valid {
            Ok(YoutubeUrl(normalized))
        } else {
            Err(DownloaderError::InvalidUrl)
        }
    }

    /// The link's text.
    pub fn as_str(&self) -> (r: &str)
        ensures
            r@ == self@,
    {
        self.0.as_str()
    }
}


/// Parsing an accepted link again accepts it and gives the same link.
pub proof fn law_parse_is_idempotent(raw: Seq<char>)
    ensures
        trim(trim(raw)) == trim(raw),
        is_youtube_link(trim(raw)) ==> is_youtube_link(trim(trim(raw))),
{
    crate::text::lemma_trim_idempotent(raw);
}

/// Any link holding `youtube.com/watch` or `youtu.be/` anywhere, whatever
/// surrounds it (`m.`, `www.`, no host prefix, query parameters), is accepted;
/// and every accepted link holds one of the two.
pub proof fn law_accepts_links_holding_youtube_patterns(before: Seq<char>, after: Seq<char>, s: Seq<char>)
    ensures
        is_youtube_link(before + "youtube.com/watch"@ + after),
        is_youtube_link(before + "youtu.be/"@ + after),
        is_youtube_link(s) ==> contains(s, "youtube.com/watch"@) || contains(s, "youtu.be/"@),
{
    crate::text::lemma_contains_inside(before, "youtube.com/watch"@, after);
    crate::text::lemma_contains_inside(before, "youtu.be/"@, after);
}

} // verus!
