use pullyt::modules::downloader::domain::errors::DownloaderError;
use pullyt::modules::downloader::domain::value_objects::YoutubeUrl;

#[test]
fn accepts_youtube_watch_url() {
    let parsed = YoutubeUrl::parse("https://www.youtube.com/watch?v=dQw4w9WgXcQ");
    assert!(parsed.is_ok());
}

#[test]
fn accepts_youtu_be_url() {
    let parsed = YoutubeUrl::parse("https://youtu.be/dQw4w9WgXcQ");
    assert!(parsed.is_ok());
}

#[test]
fn rejects_non_youtube_url() {
    let parsed = YoutubeUrl::parse("https://example.org/video");
    assert!(matches!(parsed, Err(DownloaderError::InvalidUrl)));
}

#[test]
fn parsed_link_is_trimmed() {
    let parsed = YoutubeUrl::parse(" \t https://youtu.be/abc \n").unwrap();
    assert_eq!(parsed.as_str(), "https://youtu.be/abc");
}

#[test]
fn trims_unicode_white_space() {
    let parsed = YoutubeUrl::parse("\u{3000}https://www.youtube.com/watch?v=x\u{a0}").unwrap();
    assert_eq!(parsed.as_str(), "https://www.youtube.com/watch?v=x");
}

#[test]
fn rejects_empty_and_blank_links() {
    assert!(matches!(YoutubeUrl::parse(""), Err(DownloaderError::InvalidUrl)));
    assert!(matches!(YoutubeUrl::parse("   "), Err(DownloaderError::InvalidUrl)));
}

#[test]
fn rejects_link_without_watch_path() {
    assert!(YoutubeUrl::parse("https://www.youtube.com/channel/abc").is_err());
    assert!(YoutubeUrl::parse("https://youtu.be").is_err());
}

#[test]
fn parsing_a_parsed_link_gives_it_back() {
    let first = YoutubeUrl::parse("  https://youtu.be/abc  ").unwrap();
    let second = YoutubeUrl::parse(first.as_str()).unwrap();
    assert_eq!(first.as_str(), second.as_str());
}

#[test]
fn error_messages() {
    assert_eq!(DownloaderError::InvalidUrl.message(), "invalid YouTube URL");
    assert_eq!(DownloaderError::YtDlpUnavailable.message(), "yt-dlp not available");
    assert_eq!(DownloaderError::FfmpegUnavailable.message(), "ffmpeg not available");
    assert_eq!(DownloaderError::FfprobeUnavailable.message(), "ffprobe not available");
    assert_eq!(DownloaderError::SaveCanceled.message(), "download canceled");
    assert_eq!(
        DownloaderError::ProcessFailed("boom".to_string()).to_string(),
        "process failed: boom"
    );
    assert_eq!(
        DownloaderError::ReleaseCheckFailed("timeout".to_string()).message(),
        "release check failed: timeout"
    );
}
