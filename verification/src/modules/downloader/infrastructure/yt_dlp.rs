//! The `yt-dlp` command line: format selectors, arguments, and reading its
//! progress lines.
use vstd::prelude::*;

use crate::modules::downloader::domain::entities::{
    AudioQuality, DownloadMode, DownloadPreset, DownloadProgress, DownloadRequest,
    DownloadRequestView, VideoQuality,
};
use crate::modules::downloader::domain::errors::{DownloaderError, DownloaderErrorView};
use crate::text::{contains, first_index_of, is_space, trim, trim_end};

verus! {

pub open spec fn video_selector(v: VideoQuality) -> Seq<char> {
    match v {
        VideoQuality::Best => "bestvideo"@,
        VideoQuality::P1080 => "bestvideo[height<=1080]"@,
        VideoQuality::P720 => "bestvideo[height<=720]"@,
        VideoQuality::P480 => "bestvideo[height<=480]"@,
    }
}

pub open spec fn audio_selector(a: AudioQuality) -> Seq<char> {
    match a {
        AudioQuality::Best => "bestaudio"@,
        AudioQuality::K320 => "bestaudio[abr<=320]"@,
        AudioQuality::K192 => "bestaudio[abr<=192]"@,
        AudioQuality::K128 => "bestaudio[abr<=128]"@,
    }
}

/// H.264 video in an MP4 container, at most the wanted height.
pub open spec fn compatible_video_selector(v: VideoQuality) -> Seq<char> {
    match v {
        VideoQuality::Best => "bestvideo[ext=mp4][vcodec^=avc1]"@,
        VideoQuality::P1080 => "bestvideo[ext=mp4][vcodec^=avc1][height<=1080]"@,
        VideoQuality::P720 => "bestvideo[ext=mp4][vcodec^=avc1][height<=720]"@,
        VideoQuality::P480 => "bestvideo[ext=mp4][vcodec^=avc1][height<=480]"@,
    }
}

/// AAC audio in an M4A container, at most the wanted bit rate.
pub open spec fn compatible_audio_selector(a: AudioQuality) -> Seq<char> {
    match a {
        AudioQuality::Best => "bestaudio[ext=m4a]"@,
        AudioQuality::K320 => "bestaudio[ext=m4a][abr<=320]"@,
        AudioQuality::K192 => "bestaudio[ext=m4a][abr<=192]"@,
        AudioQuality::K128 => "bestaudio[ext=m4a][abr<=128]"@,
    }
}

/// The `-f` format selector: alternatives separated by `/`, tried in order.
pub open spec fn format_selector(v: VideoQuality, a: AudioQuality, p: DownloadPreset) -> Seq<char> {
    match p {
        DownloadPreset::Compatibility => compatible_video_selector(v) + "+"@
            + compatible_audio_selector(a) + "/"@ + video_selector(v) + "+"@ + audio_selector(a)
            + "/best[ext=mp4]/best"@,
        DownloadPreset::MaxQuality => video_selector(v) + "+"@ + audio_selector(a) + "/best"@,
    }
}

fn video_selector_str(v: VideoQuality) -> (r: &'static str)
    ensures
        r@ == video_selector(v),
{
    match v {
        VideoQuality::Best => "bestvideo",
        VideoQuality::P1080 => "bestvideo[height<=1080]",
        VideoQuality::P720 => "bestvideo[height<=720]",
        VideoQuality::P480 => "bestvideo[height<=480]",
    }
}

fn audio_selector_str(a: AudioQuality) -> (r: &'static str)
    ensures
        r@ == audio_selector(a),
{
    match a {
        AudioQuality::Best => "bestaudio",
        AudioQuality::K320 => "bestaudio[abr<=320]",
        AudioQuality::K192 => "bestaudio[abr<=192]",
        AudioQuality::K128 => "bestaudio[abr<=128]",
    }
}

fn compatible_video_selector_str(v: VideoQuality) -> (r: &'static str)
    ensures
        r@ == compatible_video_selector(v),
{
    match v {
        VideoQuality::Best => "bestvideo[ext=mp4][vcodec^=avc1]",
        VideoQuality::P1080 => "bestvideo[ext=mp4][vcodec^=avc1][height<=1080]",
        VideoQuality::P720 => "bestvideo[ext=mp4][vcodec^=avc1][height<=720]",
        VideoQuality::P480 => "bestvideo[ext=mp4][vcodec^=avc1][height<=480]",
    }
}

fn compatible_audio_selector_str(a: AudioQuality) -> (r: &'static str)
    ensures
        r@ == compatible_audio_selector(a),
{
    match a {
        AudioQuality::Best => "bestaudio[ext=m4a]",
        AudioQuality::K320 => "bestaudio[ext=m4a][abr<=320]",
        AudioQuality::K192 => "bestaudio[ext=m4a][abr<=192]",
        AudioQuality::K128 => "bestaudio[ext=m4a][abr<=128]",
    }
}

/// The format selector for a video download.
pub fn video_audio_format(video: VideoQuality, audio: AudioQuality, preset: DownloadPreset) -> (r:
    String)
    ensures
        r@ == format_selector(video, audio, preset),
{
    let v = video_selector_str(video);
    let a = audio_selector_str(audio);
    match preset {
        DownloadPreset::Compatibility => {
            let mut r = crate::text::owned(compatible_video_selector_str(video));
            r.append("+");
            r.append(compatible_audio_selector_str(audio));
            r.append("/");
            r.append(v);
            r.append("+");
            r.append(a);
            r.append("/best[ext=mp4]/best");
            r
        },
        DownloadPreset::MaxQuality => {
            let mut r = crate::text::owned(v);
            r.append("+");
            r.append(a);
            r.append("/best");
            r
        },
    }
}

/// The container the separate video and audio streams are merged into.
pub open spec fn merge_container(p: DownloadPreset) -> Seq<char> {
    match p {
        DownloadPreset::Compatibility => "mp4"@,
        DownloadPreset::MaxQuality => "mkv"@,
    }
}

pub fn merge_format(preset: DownloadPreset) -> (r: &'static str)
    ensures
        r@ == merge_container(preset),
{
    match preset {
        DownloadPreset::Compatibility => "mp4",
        DownloadPreset::MaxQuality => "mkv",
    }
}

/// The `--audio-quality` value for an MP3 extraction (`0` is the best VBR setting).
pub open spec fn audio_quality_arg(a: AudioQuality) -> Seq<char> {
    match a {
        AudioQuality::Best => "0"@,
        AudioQuality::K320 => "320K"@,
        AudioQuality::K192 => "192K"@,
        AudioQuality::K128 => "128K"@,
    }
}

pub fn audio_quality_value(audio: AudioQuality) -> (r: &'static str)
    ensures
        r@ == audio_quality_arg(audio),
{
    match audio {
        AudioQuality::Best => "0",
        AudioQuality::K320 => "320K",
        AudioQuality::K192 => "192K",
        AudioQuality::K128 => "128K",
    }
}

/// The arguments `yt-dlp` is run with for a download: progress on separate
/// lines, where `ffmpeg` is, the output file and the link, then what the mode
/// asks for.
pub open spec fn download_arguments(r: DownloadRequestView, ffmpeg_path: Seq<char>) -> Seq<
    Seq<char>,
> {
    seq![
        "--newline"@,
        "--progress"@,
        "--ffmpeg-location"@,
        ffmpeg_path,
        "-o"@,
        r.output_path,
        r.url,
    ] + match r.mode {
        DownloadMode::AudioOnlyMp3 => seq![
            "-x"@,
            "--audio-format"@,
            "mp3"@,
            "--audio-quality"@,
            audio_quality_arg(r.audio_quality),
        ],
        DownloadMode::VideoWithAudio => seq![
            "-f"@,
            format_selector(r.video_quality, r.audio_quality, r.preset),
            "--merge-output-format"@,
            merge_container(r.preset),
        ],
    }
}

pub open spec fn strings_view(v: Seq<String>) -> Seq<Seq<char>> {
    v.map_values(|s: String| s@)
}

fn push_str_arg(args: &mut Vec<String>, s: &str)
    ensures
        strings_view(final(args)@) == strings_view(old(args)@).push(s@),
{
    args.push(crate::text::owned(s));
    assert(strings_view(final(args)@) =~= strings_view(old(args)@).push(s@));
}

/// The arguments `yt-dlp` is run with for `request`.
pub fn download_command_arguments(request: &DownloadRequest, ffmpeg_path: &str) -> (r: Vec<String>)
    ensures
        strings_view(r@) == download_arguments(request@, ffmpeg_path@),
{
    let mut args: Vec<String> = Vec::new();
    push_str_arg(&mut args, "--newline");
    push_str_arg(&mut args, "--progress");
    push_str_arg(&mut args, "--ffmpeg-location");
    push_str_arg(&mut args, ffmpeg_path);
    push_str_arg(&mut args, "-o");
    push_str_arg(&mut args, request.output_path.as_str());
    push_str_arg(&mut args, request.url.as_str());
    match request.mode {
        DownloadMode::AudioOnlyMp3 => {
            push_str_arg(&mut args, "-x");
            push_str_arg(&mut args, "--audio-format");
            push_str_arg(&mut args, "mp3");
            push_str_arg(&mut args, "--audio-quality");
            push_str_arg(&mut args, audio_quality_value(request.audio_quality));
        },
        DownloadMode::VideoWithAudio => {
            push_str_arg(&mut args, "-f");
            let f = video_audio_format(request.video_quality, request.audio_quality, request.preset);
            push_str_arg(&mut args, f.as_str());
            push_str_arg(&mut args, "--merge-output-format");
            push_str_arg(&mut args, merge_format(request.preset));
        },
    }
    assert(strings_view(args@) =~= download_arguments(request@, ffmpeg_path@));
    args
}

/// The arguments `yt-dlp` is run with to print a video's title.
pub open spec fn title_arguments(url: Seq<char>) -> Seq<Seq<char>> {
    seq!["--get-title"@, "--no-playlist"@, url]
}

pub fn title_command_arguments(url: &str) -> (r: Vec<String>)
    ensures
        strings_view(r@) == title_arguments(url@),
{
    let mut args: Vec<String> = Vec::new();
    push_str_arg(&mut args, "--get-title");
    push_str_arg(&mut args, "--no-playlist");
    push_str_arg(&mut args, url);
    assert(strings_view(args@) =~= title_arguments(url@));
    args
}

/// The title printed by `yt-dlp --get-title`: its output without surrounding white space.
pub fn title_from_output(output: &str) -> (t: String)
    ensures
        t@ == trim(output@),
{
    crate::text::trim_str(output)
}

/// Where the last word of `s` (which ends in no white space) begins.
pub open spec fn last_word_start(s: Seq<char>) -> int
    decreases s.len(),
{
    if s.len() == 0 {
        0
    } else if is_space(s.last()) {
        s.len() as int
    } else {
        last_word_start(s.drop_last())
    }
}

/// The last white-space-separated word of `s`, if it has one.
pub open spec fn last_word(s: Seq<char>) -> Option<Seq<char>> {
    let t = trim_end(s);
    if t.len() == 0 {
        None
    } else {
        Some(t.subrange(last_word_start(t), t.len() as int))
    }
}

/// The number a `yt-dlp` progress line gives as a percentage, as written: in a
/// line holding `[download]`, the last word before the first `%`.
pub open spec fn progress_token(line: Seq<char>) -> Option<Seq<char>> {
    if !contains(line, "[download]"@) {
        None
    } else {
        match first_index_of(line, '%') {
            None => None,
            Some(i) => last_word(line.take(i)),
        }
    }
}

proof fn lemma_last_word_start_bounds(s: Seq<char>)
    ensures
        0 <= last_word_start(s) <= s.len(),
    decreases s.len(),
{
    if s.len() > 0 && !is_space(s.last()) {
        lemma_last_word_start_bounds(s.drop_last());
    }
}

/// Reads the percentage word out of a progress line.
pub fn progress_percent_text(line: &str) -> (r: Option<String>)
    ensures
        match r {
            Some(t) => progress_token(line@) == Some(t@),
            None => progress_token(line@) is None,
        },
{
    let v = crate::text::chars_of(line);
    let marker = crate::text::chars_of("[download]");
    if !crate::text::contains_chars(&v, &marker) {
        return None;
    }
    let i = match crate::text::find_char(&v, '%') {
        None => return None,
        Some(i) => i,
    };
    proof { crate::text::lemma_first_index_bounds(v@, '%'); }
    let ghost prefix = v@.take(i as int);
    // Trailing white space of the prefix.
    let mut j: usize = i;
    while j > 0 && crate::text::char_is_space(v[j - 1])
        invariant
            j <= i < v.len(),
            prefix == v@.take(i as int),
            trim_end(prefix) == trim_end(v@.take(j as int)),
        decreases j,
    {
        assert(v@.take(j as int).drop_last() == v@.take(j - 1));
        j -= 1;
    }
    let ghost t = v@.take(j as int);
    assert(trim_end(t) == t);
    if j == 0 {
        return None;
    }
    // Start of the last word.
    let mut k: usize = j;
    while k > 0 && !crate::text::char_is_space(v[k - 1])
        invariant
            k <= j <= i < v.len(),
            t == v@.take(j as int),
            last_word_start(t) == last_word_start(v@.take(k as int)),
        decreases k,
    {
        assert(v@.take(k as int).drop_last() == v@.take(k - 1));
        k -= 1;
    }
    assert(last_word_start(v@.take(k as int)) == k);
    assert(t.subrange(k as int, j as int) == v@.subrange(k as int, j as int));
    Some(crate::text::string_of(&v, k, j))
}


/// The progress reported as `yt-dlp` is started: five percent.
pub fn starting_download_progress() -> (p: DownloadProgress)
    ensures
        p.per_mille == 50,
        p.message@ == "Starting download"@,
{
    DownloadProgress { per_mille: 50, message: "Starting download".to_owned() }
}

/// The progress reported when `yt-dlp` has succeeded.
pub fn finished_progress() -> (p: DownloadProgress)
    ensures
        p.per_mille == 1000,
        p.message@ == "Finished"@,
{
    DownloadProgress { per_mille: 1000, message: "Finished".to_owned() }
}

/// The error for a `yt-dlp` run that ended with the exit status written `status`.
pub fn exit_failure(status: &str) -> (e: DownloaderError)
    ensures
        e@ == DownloaderErrorView::ProcessFailed("yt-dlp exited with "@ + status@),
{
    DownloaderError::ProcessFailed(crate::text::concat("yt-dlp exited with ", status))
}

/// The progress word is one non-empty word.
pub proof fn law_progress_token_is_a_word(line: Seq<char>)
    ensures
        progress_token(line) matches Some(t) ==> t.len() > 0 && forall|i: int|
            0 <= i < t.len() ==> !is_space(#[trigger] t[i]),
{
    if let Some(i) = first_index_of(line, '%') {
        let t = trim_end(line.take(i));
        if t.len() > 0 && contains(line, "[download]"@) {
            crate::text::lemma_trim_end_last(line.take(i));
            lemma_last_word_start_bounds(t);
            lemma_last_word_no_space(t);
        }
    }
}

proof fn lemma_last_word_no_space(t: Seq<char>)
    requires
        t.len() > 0,
        !is_space(t.last()),
    ensures
        last_word_start(t) < t.len(),
        forall|i: int| last_word_start(t) <= i < t.len() ==> !is_space(#[trigger] t[i]),
    decreases t.len(),
{
    let u = t.drop_last();
    lemma_last_word_start_bounds(t);
    lemma_last_word_start_bounds(u);
    if u.len() > 0 && !is_space(u.last()) {
        lemma_last_word_no_space(u);
        assert forall|i: int| last_word_start(t) <= i < t.len() implies !is_space(#[trigger] t[i]) by {
            if i < u.len() {
                assert(t[i] == u[i]);
            }
        }
    } else {
        lemma_last_word_start_bounds(u);
    }
}

/// A video download is merged into the container of the first file type the
/// save dialog offers, and an audio download is extracted to MP3, the type the
/// dialog offers for it.
pub proof fn law_container_matches_dialog(r: DownloadRequestView, ffmpeg_path: Seq<char>)
    ensures
        r.mode == DownloadMode::VideoWithAudio ==> download_arguments(r, ffmpeg_path)[10]
            == super::save_dialog::offered_types(r.mode, r.preset).1[0],
        r.mode == DownloadMode::AudioOnlyMp3 ==> download_arguments(r, ffmpeg_path)[9]
            == super::save_dialog::offered_types(r.mode, r.preset).1[0],
{
}

/// The height limit a video quality adds to a selector (none for the best).
spec fn height_limit(v: VideoQuality) -> Seq<char> {
    match v {
        VideoQuality::Best => Seq::empty(),
        VideoQuality::P1080 => "[height<=1080]"@,
        VideoQuality::P720 => "[height<=720]"@,
        VideoQuality::P480 => "[height<=480]"@,
    }
}

/// The bit-rate limit an audio quality adds to a selector (none for the best).
spec fn bitrate_limit(a: AudioQuality) -> Seq<char> {
    match a {
        AudioQuality::Best => Seq::empty(),
        AudioQuality::K320 => "[abr<=320]"@,
        AudioQuality::K192 => "[abr<=192]"@,
        AudioQuality::K128 => "[abr<=128]"@,
    }
}

proof fn lemma_video_selectors(v: VideoQuality)
    ensures
        video_selector(v) == "bestvideo"@ + height_limit(v),
        compatible_video_selector(v) == "bestvideo[ext=mp4][vcodec^=avc1]"@ + height_limit(v),
{
    reveal_strlit("bestvideo");
    reveal_strlit("bestvideo[ext=mp4][vcodec^=avc1]");
    match v {
        VideoQuality::Best => {
            assert(video_selector(v) =~= "bestvideo"@ + height_limit(v));
            assert(compatible_video_selector(v) =~= "bestvideo[ext=mp4][vcodec^=avc1]"@ + height_limit(v));
        },
        VideoQuality::P1080 => {
            reveal_strlit("[height<=1080]");
            reveal_strlit("bestvideo[height<=1080]");
            reveal_strlit("bestvideo[ext=mp4][vcodec^=avc1][height<=1080]");
            assert(video_selector(v) =~= "bestvideo"@ + height_limit(v));
            assert(compatible_video_selector(v) =~= "bestvideo[ext=mp4][vcodec^=avc1]"@ + height_limit(v));
        },
        VideoQuality::P720 => {
            reveal_strlit("[height<=720]");
            reveal_strlit("bestvideo[height<=720]");
            reveal_strlit("bestvideo[ext=mp4][vcodec^=avc1][height<=720]");
            assert(video_selector(v) =~= "bestvideo"@ + height_limit(v));
            assert(compatible_video_selector(v) =~= "bestvideo[ext=mp4][vcodec^=avc1]"@ + height_limit(v));
        },
        VideoQuality::P480 => {
            reveal_strlit("[height<=480]");
            reveal_strlit("bestvideo[height<=480]");
            reveal_strlit("bestvideo[ext=mp4][vcodec^=avc1][height<=480]");
            assert(video_selector(v) =~= "bestvideo"@ + height_limit(v));
            assert(compatible_video_selector(v) =~= "bestvideo[ext=mp4][vcodec^=avc1]"@ + height_limit(v));
        },
    }
}

proof fn lemma_audio_selectors(a: AudioQuality)
    ensures
        audio_selector(a) == "bestaudio"@ + bitrate_limit(a),
        compatible_audio_selector(a) == "bestaudio[ext=m4a]"@ + bitrate_limit(a),
{
    reveal_strlit("bestaudio");
    reveal_strlit("bestaudio[ext=m4a]");
    match a {
        AudioQuality::Best => {
            assert(audio_selector(a) =~= "bestaudio"@ + bitrate_limit(a));
            assert(compatible_audio_selector(a) =~= "bestaudio[ext=m4a]"@ + bitrate_limit(a));
        },
        AudioQuality::K320 => {
            reveal_strlit("[abr<=320]");
            reveal_strlit("bestaudio[abr<=320]");
            reveal_strlit("bestaudio[ext=m4a][abr<=320]");
            assert(audio_selector(a) =~= "bestaudio"@ + bitrate_limit(a));
            assert(compatible_audio_selector(a) =~= "bestaudio[ext=m4a]"@ + bitrate_limit(a));
        },
        AudioQuality::K192 => {
            reveal_strlit("[abr<=192]");
            reveal_strlit("bestaudio[abr<=192]");
            reveal_strlit("bestaudio[ext=m4a][abr<=192]");
            assert(audio_selector(a) =~= "bestaudio"@ + bitrate_limit(a));
            assert(compatible_audio_selector(a) =~= "bestaudio[ext=m4a]"@ + bitrate_limit(a));
        },
        AudioQuality::K128 => {
            reveal_strlit("[abr<=128]");
            reveal_strlit("bestaudio[abr<=128]");
            reveal_strlit("bestaudio[ext=m4a][abr<=128]");
            assert(audio_selector(a) =~= "bestaudio"@ + bitrate_limit(a));
            assert(compatible_audio_selector(a) =~= "bestaudio[ext=m4a]"@ + bitrate_limit(a));
        },
    }
}

#[verifier::rlimit(60)]
proof fn lemma_compatible_selector(v: VideoQuality, a: AudioQuality)
    ensures
        ({
            let f = format_selector(v, a, DownloadPreset::Compatibility);
            &&& crate::text::starts_with(f, "bestvideo[ext=mp4][vcodec^=avc1]"@)
            &&& crate::text::ends_with(f, "/best[ext=mp4]/best"@)
            &&& contains(f, height_limit(v))
            &&& contains(f, bitrate_limit(a))
        }),
{
    lemma_video_selectors(v);
    lemma_audio_selectors(a);
    let f = format_selector(v, a, DownloadPreset::Compatibility);
    let h = height_limit(v);
    let b = bitrate_limit(a);
    let base = "bestvideo[ext=mp4][vcodec^=avc1]"@;
    let mid = "+"@ + compatible_audio_selector(a) + "/"@ + video_selector(v) + "+"@ + audio_selector(a);
    let tail = "/best[ext=mp4]/best"@;
    assert(f =~= base + (h + mid + tail));
    crate::text::lemma_concat_ends(base, h + mid + tail);
    assert(f =~= (base + h + mid) + tail);
    crate::text::lemma_concat_ends(base + h + mid, tail);
    crate::text::lemma_contains_inside(base, h, mid + tail);
    assert(base + h + (mid + tail) =~= f);
    let before_b = base + h + "+"@ + "bestaudio[ext=m4a]"@;
    let after_b = "/"@ + video_selector(v) + "+"@ + audio_selector(a) + tail;
    crate::text::lemma_contains_inside(before_b, b, after_b);
    assert(before_b + b + after_b =~= f);
}

proof fn lemma_best_quality_selector(v: VideoQuality, a: AudioQuality)
    ensures
        ({
            let f = format_selector(v, a, DownloadPreset::MaxQuality);
            &&& crate::text::starts_with(f, "bestvideo"@)
            &&& crate::text::ends_with(f, "/best"@)
            &&& contains(f, height_limit(v))
            &&& contains(f, bitrate_limit(a))
        }),
{
    lemma_video_selectors(v);
    lemma_audio_selectors(a);
    let f = format_selector(v, a, DownloadPreset::MaxQuality);
    let h = height_limit(v);
    let b = bitrate_limit(a);
    let base = "bestvideo"@;
    let tail = "/best"@;
    let mid = "+"@ + audio_selector(a);
    assert(f =~= base + (h + mid + tail));
    crate::text::lemma_concat_ends(base, h + mid + tail);
    assert(f =~= (base + h + mid) + tail);
    crate::text::lemma_concat_ends(base + h + mid, tail);
    crate::text::lemma_contains_inside(base, h, mid + tail);
    assert(base + h + (mid + tail) =~= f);
    let before_b = base + h + "+"@ + "bestaudio"@;
    crate::text::lemma_contains_inside(before_b, b, tail);
    assert(before_b + b + tail =~= f);
}

proof fn lemma_best_quality_is_not_mp4_first(v: VideoQuality, a: AudioQuality)
    ensures
        !crate::text::starts_with(format_selector(v, a, DownloadPreset::MaxQuality), "bestvideo[ext=mp4]"@),
{
    lemma_video_selectors(v);
    lemma_audio_selectors(a);
    let f = format_selector(v, a, DownloadPreset::MaxQuality);
    let h = height_limit(v);
    let rest = "+"@ + audio_selector(a) + "/best"@;
    assert(f =~= "bestvideo"@ + (h + rest));
    reveal_strlit("bestvideo");
    reveal_strlit("bestvideo[ext=mp4]");
    reveal_strlit("+");
    reveal_strlit("bestaudio");
    if v == VideoQuality::Best {
        assert(h.len() == 0);
        assert(f[10] == rest[1]);
        assert(rest[1] == audio_selector(a)[0]);
        assert(audio_selector(a)[0] == 'b');
    } else {
        reveal_strlit("[height<=1080]");
        reveal_strlit("[height<=720]");
        reveal_strlit("[height<=480]");
        assert(f[10] == h[1]);
        assert(h[1] == 'h');
    }
    if crate::text::starts_with(f, "bestvideo[ext=mp4]"@) {
        assert(f.subrange(0, 18)[10] == f[10]);
        assert("bestvideo[ext=mp4]"@[10] == 'e');
    }
}

/// The format selector asks for what the preset and qualities say: with the
/// compatibility preset it tries H.264 video in MP4 first and falls back to
/// the best MP4, then anything; with the best-quality preset it asks for the
/// best streams of any codec. Either way the video alternatives carry the
/// chosen height limit and the audio ones the chosen bit-rate limit.
pub proof fn law_format_selector_follows_choices(v: VideoQuality, a: AudioQuality, p: DownloadPreset)
    ensures
        p == DownloadPreset::Compatibility ==> crate::text::starts_with(
            format_selector(v, a, p),
            "bestvideo[ext=mp4][vcodec^=avc1]"@,
        ) && crate::text::ends_with(format_selector(v, a, p), "/best[ext=mp4]/best"@),
        p == DownloadPreset::MaxQuality ==> crate::text::starts_with(format_selector(v, a, p), "bestvideo"@)
            && !crate::text::starts_with(format_selector(v, a, p), "bestvideo[ext=mp4]"@)
            && crate::text::ends_with(format_selector(v, a, p), "/best"@),
        v == VideoQuality::P1080 ==> contains(format_selector(v, a, p), "[height<=1080]"@),
        v == VideoQuality::P720 ==> contains(format_selector(v, a, p), "[height<=720]"@),
        v == VideoQuality::P480 ==> contains(format_selector(v, a, p), "[height<=480]"@),
        a == AudioQuality::K320 ==> contains(format_selector(v, a, p), "[abr<=320]"@),
        a == AudioQuality::K192 ==> contains(format_selector(v, a, p), "[abr<=192]"@),
        a == AudioQuality::K128 ==> contains(format_selector(v, a, p), "[abr<=128]"@),
{
    match p {
        DownloadPreset::Compatibility => lemma_compatible_selector(v, a),
        DownloadPreset::MaxQuality => {
            lemma_best_quality_selector(v, a);
            lemma_best_quality_is_not_mp4_first(v, a);
        },
    }
}

/// The command line for a download carries the request: where `ffmpeg` is,
/// the output file and the link; for a video, `-f` with the format selector
/// built from the request's own qualities and preset, merged into MP4 for the
/// compatibility preset and MKV for the best quality; for audio, an MP3
/// extraction at the request's audio quality.
pub proof fn law_download_arguments_follow_request(r: DownloadRequestView, ffmpeg_path: Seq<char>)
    ensures
        download_arguments(r, ffmpeg_path)[2] == "--ffmpeg-location"@,
        download_arguments(r, ffmpeg_path)[3] == ffmpeg_path,
        download_arguments(r, ffmpeg_path)[4] == "-o"@,
        download_arguments(r, ffmpeg_path)[5] == r.output_path,
        download_arguments(r, ffmpeg_path)[6] == r.url,
        r.mode == DownloadMode::VideoWithAudio ==> {
            &&& download_arguments(r, ffmpeg_path).len() == 11
            &&& download_arguments(r, ffmpeg_path)[7] == "-f"@
            &&& download_arguments(r, ffmpeg_path)[8] == format_selector(r.video_quality, r.audio_quality, r.preset)
            &&& download_arguments(r, ffmpeg_path)[9] == "--merge-output-format"@
            &&& (r.preset == DownloadPreset::Compatibility ==> download_arguments(r, ffmpeg_path)[10] == "mp4"@)
            &&& (r.preset == DownloadPreset::MaxQuality ==> download_arguments(r, ffmpeg_path)[10] == "mkv"@)
        },
        r.mode == DownloadMode::AudioOnlyMp3 ==> {
            &&& download_arguments(r, ffmpeg_path).len() == 12
            &&& download_arguments(r, ffmpeg_path)[7] == "-x"@
            &&& download_arguments(r, ffmpeg_path)[8] == "--audio-format"@
            &&& download_arguments(r, ffmpeg_path)[9] == "mp3"@
            &&& download_arguments(r, ffmpeg_path)[10] == "--audio-quality"@
            &&& (r.audio_quality == AudioQuality::Best ==> download_arguments(r, ffmpeg_path)[11] == "0"@)
            &&& (r.audio_quality == AudioQuality::K320 ==> download_arguments(r, ffmpeg_path)[11] == "320K"@)
            &&& (r.audio_quality == AudioQuality::K192 ==> download_arguments(r, ffmpeg_path)[11] == "192K"@)
            &&& (r.audio_quality == AudioQuality::K128 ==> download_arguments(r, ffmpeg_path)[11] == "128K"@)
        },
{
}

proof fn lemma_first_index_at(s: Seq<char>, c: char, k: int)
    requires
        0 <= k < s.len(),
        s[k] == c,
        forall|j: int| 0 <= j < k ==> s[j] != c,
    ensures
        first_index_of(s, c) == Some(k),
    decreases k,
{
    if k > 0 {
        assert(s[0] != c);
        lemma_first_index_at(s.drop_first(), c, k - 1);
    }
}

proof fn lemma_last_word_start_of_word(p: Seq<char>, w: Seq<char>)
    requires
        w.len() > 0,
        forall|i: int| 0 <= i < w.len() ==> !is_space(#[trigger] w[i]),
        p.len() == 0 || is_space(p.last()),
    ensures
        last_word_start(p + w) == p.len(),
    decreases w.len(),
{
    assert((p + w).drop_last() =~= p + w.drop_last());
    assert((p + w).last() == w.last());
    assert(!is_space(w[w.len() - 1]));
    if w.len() == 1 {
        assert(p + w.drop_last() =~= p);
        assert(last_word_start(p) == p.len());
    } else {
        assert forall|i: int| 0 <= i < w.drop_last().len() implies !is_space(#[trigger] w.drop_last()[i]) by {
            assert(w.drop_last()[i] == w[i]);
        }
        lemma_last_word_start_of_word(p, w.drop_last());
    }
}

/// In a `[download]` line the percentage read is exactly the word written
/// just before the first `%`, whatever comes before or after it; a line
/// without the `[download]` marker, or without `%`, gives none.
pub proof fn law_progress_word_before_percent(before: Seq<char>, word: Seq<char>, after: Seq<char>, line: Seq<char>)
    requires
        contains(before, "[download]"@),
        before.len() > 0 && is_space(before.last()),
        forall|i: int| 0 <= i < before.len() ==> before[i] != '%',
        word.len() > 0,
        forall|i: int| 0 <= i < word.len() ==> !is_space(#[trigger] word[i]) && word[i] != '%',
    ensures
        progress_token(before + word + "%"@ + after) == Some(word),
        !contains(line, "[download]"@) ==> progress_token(line) is None,
        (forall|i: int| 0 <= i < line.len() ==> line[i] != '%') ==> progress_token(line) is None,
{
    reveal_strlit("%");
    let l = before + word + "%"@ + after;
    let k: int = (before.len() + word.len()) as int;
    let pat = "[download]"@;
    let i = choose|i: int| crate::text::occurs_at(before, pat, i);
    assert(l.subrange(i, i + pat.len()) =~= before.subrange(i, i + pat.len()));
    assert(crate::text::occurs_at(l, pat, i));
    assert forall|j: int| 0 <= j < k implies l[j] != '%' by {
        if j < before.len() {
            assert(l[j] == before[j]);
        } else {
            assert(l[j] == word[j - before.len()]);
        }
    }
    assert(l[k] == '%');
    lemma_first_index_at(l, '%', k);
    assert(l.take(k) =~= before + word);
    lemma_last_word_start_of_word(before, word);
    assert((before + word).last() == word.last());
    assert(trim_end(before + word) == before + word);
    assert((before + word).subrange(before.len() as int, (before + word).len() as int) =~= word);
    if forall|i: int| 0 <= i < line.len() ==> line[i] != '%' {
        crate::text::lemma_first_index_bounds(line, '%');
    }
}

} // verus!
