use pullyt::modules::downloader::domain::entities::{
    AudioQuality, DownloadMode, DownloadPreset, DownloadRequest, Provider, VideoQuality,
};
use pullyt::modules::downloader::domain::errors::DownloaderError;
use pullyt::modules::downloader::infrastructure::yt_dlp::{
    audio_quality_value, download_command_arguments, exit_failure, finished_progress,
    merge_format, progress_percent_text, starting_download_progress, title_command_arguments,
    title_from_output, video_audio_format,
};

/// The fraction of the download a progress line reports, read as the
/// application reads it: the percentage word as a number, divided by 100.
fn fraction(line: &str) -> Option<f32> {
    let word = progress_percent_text(line)?;
    let val: f32 = word.parse().ok()?;
    Some((val / 100.0).clamp(0.0, 1.0))
}

#[test]
fn yt_dlp_parses_percentage_line() {
    let p = fraction("[download]  42.4% of 12.01MiB at 2.11MiB/s ETA 00:04").unwrap();
    assert!(p > 0.42 && p < 0.43);
}

#[test]
fn progress_word_is_the_number_before_percent() {
    assert_eq!(
        progress_percent_text("[download]  42.4% of 12.01MiB at 2.11MiB/s ETA 00:04"),
        Some("42.4".to_string())
    );
    assert_eq!(progress_percent_text("[download] 100% of 3MiB"), Some("100".to_string()));
    assert_eq!(progress_percent_text("[download]   7.0 % done"), Some("7.0".to_string()));
}

#[test]
fn lines_without_marker_or_percent_are_ignored() {
    assert_eq!(progress_percent_text("[info] 42.4% of something"), None);
    assert_eq!(progress_percent_text("[download] Destination: a.mp4"), None);
    assert_eq!(progress_percent_text("[download]%"), Some("[download]".to_string()));
    assert_eq!(fraction("[download]%"), None);
    assert_eq!(progress_percent_text("  %  [download]"), None);
    assert_eq!(progress_percent_text("%[download]"), None);
    assert_eq!(progress_percent_text(""), None);
}

#[test]
fn format_selectors() {
    assert_eq!(
        video_audio_format(VideoQuality::Best, AudioQuality::Best, DownloadPreset::MaxQuality),
        "bestvideo+bestaudio/best"
    );
    assert_eq!(
        video_audio_format(VideoQuality::P720, AudioQuality::K128, DownloadPreset::MaxQuality),
        "bestvideo[height<=720]+bestaudio[abr<=128]/best"
    );
    assert_eq!(
        video_audio_format(VideoQuality::P1080, AudioQuality::K192, DownloadPreset::Compatibility),
        "bestvideo[ext=mp4][vcodec^=avc1][height<=1080]+bestaudio[ext=m4a][abr<=192]/bestvideo[height<=1080]+bestaudio[abr<=192]/best[ext=mp4]/best"
    );
}

#[test]
fn merge_and_audio_values() {
    assert_eq!(merge_format(DownloadPreset::Compatibility), "mp4");
    assert_eq!(merge_format(DownloadPreset::MaxQuality), "mkv");
    assert_eq!(audio_quality_value(AudioQuality::Best), "0");
    assert_eq!(audio_quality_value(AudioQuality::K320), "320K");
    assert_eq!(audio_quality_value(AudioQuality::K192), "192K");
    assert_eq!(audio_quality_value(AudioQuality::K128), "128K");
}

fn request(mode: DownloadMode) -> DownloadRequest {
    DownloadRequest {
        provider: Provider::YouTube,
        mode,
        preset: DownloadPreset::MaxQuality,
        video_quality: VideoQuality::P480,
        audio_quality: AudioQuality::K320,
        url: "https://youtu.be/x".to_string(),
        output_path: "/tmp/o.mkv".to_string(),
    }
}

#[test]
fn audio_download_arguments() {
    let args = download_command_arguments(&request(DownloadMode::AudioOnlyMp3), "/usr/bin/ffmpeg");
    assert_eq!(
        args,
        vec![
            "--newline", "--progress", "--ffmpeg-location", "/usr/bin/ffmpeg", "-o", "/tmp/o.mkv",
            "https://youtu.be/x", "-x", "--audio-format", "mp3", "--audio-quality", "320K",
        ]
    );
}

#[test]
fn video_download_arguments() {
    let args = download_command_arguments(&request(DownloadMode::VideoWithAudio), "ffmpeg");
    assert_eq!(
        args,
        vec![
            "--newline", "--progress", "--ffmpeg-location", "ffmpeg", "-o", "/tmp/o.mkv",
            "https://youtu.be/x", "-f", "bestvideo[height<=480]+bestaudio[abr<=320]/best",
            "--merge-output-format", "mkv",
        ]
    );
}

#[test]
fn title_query() {
    assert_eq!(
        title_command_arguments("https://youtu.be/x"),
        vec!["--get-title", "--no-playlist", "https://youtu.be/x"]
    );
    assert_eq!(title_from_output("  My Song\n"), "My Song");
}

#[test]
fn progress_messages_and_exit_error() {
    let start = starting_download_progress();
    assert_eq!((start.per_mille, start.message.as_str()), (50, "Starting download"));
    let end = finished_progress();
    assert_eq!((end.per_mille, end.message.as_str()), (1000, "Finished"));
    assert!(matches!(exit_failure("exit status: 1"),
        DownloaderError::ProcessFailed(m) if m == "yt-dlp exited with exit status: 1"));
}
