//! What the save dialog offers: the file type filter and the suggested name.
use vstd::prelude::*;

use crate::modules::downloader::domain::entities::{DownloadMode, DownloadPreset};
use crate::text::ends_with;

verus! {

/// Characters that file systems refuse in a name are replaced by `_`.
pub open spec fn is_reserved_char(c: char) -> bool {
    c == '/' || c == '\\' || c == ':' || c == '*' || c == '?' || c == '"' || c == '<' || c == '>'
        || c == '|'
}

pub open spec fn sanitize_char(c: char) -> char {
    if is_reserved_char(c) {
        '_'
    } else {
        c
    }
}

pub open spec fn sanitized(s: Seq<char>) -> Seq<char> {
    s.map_values(|c: char| sanitize_char(c))
}

/// `name` with each reserved character replaced by `_`.
pub fn sanitize_filename(name: &str) -> (r: String)
    ensures
        r@ == sanitized(name@),
{
    let v = crate::text::chars_of(name);
    let mut r = String::new();
    let mut i: usize = 0;
    while i < v.len()
        invariant
            i <= v.len(),
            r@ == sanitized(v@.take(i as int)),
        decreases v.len() - i,
    {
        let c = v[i];
        let d = if c == '/' || c == '\\' || c == ':' || c == '*' || c == '?' || c == '"' || c
            == '<' || c == '>' || c == '|' {
            '_'
        } else {
            c
        };
        crate::text::push_char(&mut r, d);
        assert(sanitized(v@.take(i + 1)) =~= sanitized(v@.take(i as int)).push(d));
        i += 1;
    }
    assert(v@.take(v.len() as int) == v@);
    r
}

/// The suggested name before its extension: the sanitized title, or
/// `media-dock` when that is empty.
pub open spec fn file_stem(title: Seq<char>) -> Seq<char> {
    if sanitized(title).len() == 0 {
        "media-dock"@
    } else {
        sanitized(title)
    }
}

/// What the save dialog is opened with.
#[derive(Debug)]
pub struct SaveDialogPlan {
    pub filter_name: String,
    pub extensions: Vec<String>,
    pub file_name: String,
}

pub struct SaveDialogPlanView {
    pub filter_name: Seq<char>,
    pub extensions: Seq<Seq<char>>,
    pub file_name: Seq<char>,
}

impl View for SaveDialogPlan {
    type V = SaveDialogPlanView;

    open spec fn view(&self) -> SaveDialogPlanView {
        SaveDialogPlanView {
            filter_name: self.filter_name@,
            extensions: self.extensions@.map_values(|s: String| s@),
            file_name: self.file_name@,
        }
    }
}

/// The file types offered for a mode and preset: MP3 for audio, MP4 for
/// compatible video, and MKV (or WebM or MP4) for the best quality.
pub open spec fn offered_types(mode: DownloadMode, preset: DownloadPreset) -> (Seq<char>, Seq<Seq<char>>) {
    match mode {
        DownloadMode::AudioOnlyMp3 => ("MP3 audio"@, seq!["mp3"@]),
        DownloadMode::VideoWithAudio => match preset {
            DownloadPreset::Compatibility => ("Video"@, seq!["mp4"@]),
            DownloadPreset::MaxQuality => ("Video"@, seq!["mkv"@, "webm"@, "mp4"@]),
        },
    }
}

/// The dialog's filter, and a suggested name made of the file stem and the
/// first offered extension.
pub open spec fn dialog_plan(mode: DownloadMode, preset: DownloadPreset, title: Seq<char>) -> SaveDialogPlanView {
    let (name, exts) = offered_types(mode, preset);
    SaveDialogPlanView {
        filter_name: name,
        extensions: exts,
        file_name: file_stem(title) + "."@ + exts[0],
    }
}

pub fn save_dialog_plan(mode: DownloadMode, preset: DownloadPreset, title: &str) -> (r: SaveDialogPlan)
    ensures
        r@ == dialog_plan(mode, preset, title@),
{
    let safe = sanitize_filename(title);
    let stem = if safe.as_str().is_empty() {
        proof {
            assert(safe@.len() == 0);
        }
        "media-dock".to_owned()
    } else {
        proof {
            assert(safe@.len() != 0);
        }
        safe
    };
    let (filter_name, extensions, first): (&str, Vec<String>, &str) = match mode {
        DownloadMode::AudioOnlyMp3 => ("MP3 audio", vec!["mp3".to_owned()], "mp3"),
        DownloadMode::VideoWithAudio => match preset {
            DownloadPreset::Compatibility => ("Video", vec!["mp4".to_owned()], "mp4"),
            DownloadPreset::MaxQuality => (
                "Video",
                vec!["mkv".to_owned(), "webm".to_owned(), "mp4".to_owned()],
                "mkv",
            ),
        },
    };
    let file_name = crate::text::concat3(stem.as_str(), ".", first);
    let r = SaveDialogPlan { filter_name: crate::text::owned(filter_name), extensions, file_name };
    assert(r@.extensions =~= offered_types(mode, preset).1);
    r
}

/// A sanitized name holds no reserved character.
pub proof fn law_sanitized_has_no_reserved_char(name: Seq<char>)
    ensures
        forall|i: int| 0 <= i < sanitized(name).len() ==> !is_reserved_char(#[trigger] sanitized(name)[i]),
        sanitized(name).len() == name.len(),
{
}

/// Sanitizing a sanitized name changes nothing.
pub proof fn law_sanitize_idempotent(name: Seq<char>)
    ensures
        sanitized(sanitized(name)) == sanitized(name),
{
    assert(sanitized(sanitized(name)) =~= sanitized(name));
}

/// The suggested name is never empty, ends with `.` and the first offered
/// extension, and holds no reserved character.
pub proof fn law_suggested_name_matches_filter(mode: DownloadMode, preset: DownloadPreset, title: Seq<char>)
    ensures
        ({
            let plan = dialog_plan(mode, preset, title);
            &&& plan.extensions.len() > 0
            &&& ends_with(plan.file_name, "."@ + plan.extensions[0])
            &&& file_stem(title).len() > 0
            &&& plan.file_name == file_stem(title) + "."@ + plan.extensions[0]
        }),
{
    let plan = dialog_plan(mode, preset, title);
    let ext = "."@ + plan.extensions[0];
    reveal_strlit("media-dock");
    assert(plan.file_name.subrange(plan.file_name.len() - ext.len(), plan.file_name.len() as int) =~= ext);
}

/// Sanitizing replaces exactly the nine characters `/ \ : * ? " < > |` by
/// `_` and keeps every other character where it was (dots and spaces included).
pub proof fn law_sanitize_replaces_only_reserved(name: Seq<char>)
    ensures
        sanitized(name).len() == name.len(),
        forall|i: int|
            0 <= i < name.len() && (name[i] == '/' || name[i] == '\\' || name[i] == ':' || name[i] == '*'
                || name[i] == '?' || name[i] == '"' || name[i] == '<' || name[i] == '>' || name[i] == '|')
                ==> #[trigger] sanitized(name)[i] == '_',
        forall|i: int|
            0 <= i < name.len() && name[i] != '/' && name[i] != '\\' && name[i] != ':' && name[i] != '*'
                && name[i] != '?' && name[i] != '"' && name[i] != '<' && name[i] != '>' && name[i] != '|'
                ==> #[trigger] sanitized(name)[i] == name[i],
{
}

/// The suggested name of a titled download is the title with only the
/// reserved characters replaced, then `.` and the first offered extension.
pub proof fn law_suggested_name_keeps_title(mode: DownloadMode, preset: DownloadPreset, title: Seq<char>)
    requires
        title.len() > 0,
    ensures
        dialog_plan(mode, preset, title).file_name.len() == title.len() + 1 + dialog_plan(
            mode,
            preset,
            title,
        ).extensions[0].len(),
        forall|i: int|
            0 <= i < title.len() && !is_reserved_char(title[i]) ==> #[trigger] dialog_plan(
                mode,
                preset,
                title,
            ).file_name[i] == title[i],
        mode == DownloadMode::AudioOnlyMp3 ==> dialog_plan(mode, preset, title).extensions[0] == "mp3"@,
        mode == DownloadMode::VideoWithAudio && preset == DownloadPreset::Compatibility ==> dialog_plan(
            mode,
            preset,
            title,
        ).extensions[0] == "mp4"@,
        mode == DownloadMode::VideoWithAudio && preset == DownloadPreset::MaxQuality ==> dialog_plan(
            mode,
            preset,
            title,
        ).extensions[0] == "mkv"@,
{
    reveal_strlit(".");
    assert(sanitized(title).len() == title.len());
}

} // verus!
