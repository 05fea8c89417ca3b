use pullyt::modules::downloader::domain::entities::{DownloadMode, DownloadPreset};
use pullyt::modules::downloader::infrastructure::save_dialog::{sanitize_filename, save_dialog_plan};

#[test]
fn replaces_reserved_characters() {
    assert_eq!(sanitize_filename("a/b\\c:d*e?f\"g<h>i|j"), "a_b_c_d_e_f_g_h_i_j");
    assert_eq!(sanitize_filename("Música – ñ"), "Música – ñ");
    assert_eq!(sanitize_filename(""), "");
}

#[test]
fn sanitizing_twice_changes_nothing() {
    let once = sanitize_filename("AC/DC: Live?");
    assert_eq!(sanitize_filename(&once), once);
}

#[test]
fn audio_plan() {
    let plan = save_dialog_plan(DownloadMode::AudioOnlyMp3, DownloadPreset::MaxQuality, "My: Song");
    assert_eq!(plan.filter_name, "MP3 audio");
    assert_eq!(plan.extensions, vec!["mp3"]);
    assert_eq!(plan.file_name, "My_ Song.mp3");
}

#[test]
fn video_plans() {
    let compat = save_dialog_plan(DownloadMode::VideoWithAudio, DownloadPreset::Compatibility, "clip");
    assert_eq!(compat.filter_name, "Video");
    assert_eq!(compat.extensions, vec!["mp4"]);
    assert_eq!(compat.file_name, "clip.mp4");
    let best = save_dialog_plan(DownloadMode::VideoWithAudio, DownloadPreset::MaxQuality, "clip");
    assert_eq!(best.extensions, vec!["mkv", "webm", "mp4"]);
    assert_eq!(best.file_name, "clip.mkv");
}

#[test]
fn empty_title_gets_default_name() {
    let plan = save_dialog_plan(DownloadMode::VideoWithAudio, DownloadPreset::Compatibility, "");
    assert_eq!(plan.file_name, "media-dock.mp4");
}
