use pullyt::modules::downloader::domain::errors::DownloaderError;
use pullyt::modules::downloader::infrastructure::dependencies::Tool;
use pullyt::modules::downloader::infrastructure::tool_lookup::{LookupAction, LookupEvent, ToolLookup};

fn done(a: LookupAction) -> Result<String, DownloaderError> {
    match a {
        LookupAction::Done(r) => r,
        other => panic!("expected the end, got {:?}", other),
    }
}

#[test]
fn working_system_command_is_used() {
    let (mut l, a) = ToolLookup::start(Tool::YtDlp, "/h/y".to_string());
    assert!(matches!(a, LookupAction::RunVersionProbe));
    assert_eq!(done(l.advance(LookupEvent::ProbeSucceeded(true))).unwrap(), "yt-dlp");
}

#[test]
fn yt_dlp_local_copy_before_installing() {
    let (mut l, _) = ToolLookup::start(Tool::YtDlp, "/h/y".to_string());
    assert!(matches!(l.advance(LookupEvent::ProbeSucceeded(false)), LookupAction::CheckLocalFile));
    assert_eq!(done(l.advance(LookupEvent::LocalFileExists(true))).unwrap(), "/h/y");
}

#[test]
fn yt_dlp_installed_then_found() {
    let (mut l, _) = ToolLookup::start(Tool::YtDlp, "/h/y".to_string());
    l.advance(LookupEvent::ProbeSucceeded(false));
    assert!(matches!(l.advance(LookupEvent::LocalFileExists(false)), LookupAction::Install));
    assert!(matches!(l.advance(LookupEvent::Installed(Ok(()))), LookupAction::RunVersionProbe));
    assert!(matches!(l.advance(LookupEvent::ProbeSucceeded(false)), LookupAction::CheckLocalFile));
    assert_eq!(done(l.advance(LookupEvent::LocalFileExists(true))).unwrap(), "/h/y");
}

#[test]
fn yt_dlp_unavailable_after_install() {
    let (mut l, _) = ToolLookup::start(Tool::YtDlp, "/h/y".to_string());
    l.advance(LookupEvent::ProbeSucceeded(false));
    l.advance(LookupEvent::LocalFileExists(false));
    l.advance(LookupEvent::Installed(Ok(())));
    l.advance(LookupEvent::ProbeSucceeded(false));
    assert!(matches!(done(l.advance(LookupEvent::LocalFileExists(false))), Err(DownloaderError::YtDlpUnavailable)));
}

#[test]
fn failed_install_is_reported() {
    let (mut l, _) = ToolLookup::start(Tool::Ffmpeg, "/h/f".to_string());
    assert!(matches!(l.advance(LookupEvent::ProbeSucceeded(false)), LookupAction::Install));
    let r = done(l.advance(LookupEvent::Installed(Err(DownloaderError::ProcessFailed("disk".to_string())))));
    assert!(matches!(r, Err(DownloaderError::ProcessFailed(m)) if m == "disk"));
}

#[test]
fn ffprobe_missing_after_install() {
    let (mut l, _) = ToolLookup::start(Tool::Ffprobe, "/h/p".to_string());
    l.advance(LookupEvent::ProbeSucceeded(false));
    assert!(matches!(l.advance(LookupEvent::Installed(Ok(()))), LookupAction::CheckLocalFile));
    assert!(matches!(done(l.advance(LookupEvent::LocalFileExists(false))), Err(DownloaderError::FfprobeUnavailable)));
}

#[test]
fn ffmpeg_found_after_install() {
    let (mut l, _) = ToolLookup::start(Tool::Ffmpeg, "/h/f".to_string());
    l.advance(LookupEvent::ProbeSucceeded(false));
    l.advance(LookupEvent::Installed(Ok(())));
    assert_eq!(done(l.advance(LookupEvent::LocalFileExists(true))).unwrap(), "/h/f");
}

#[test]
fn unexpected_event_repeats_request() {
    let (mut l, _) = ToolLookup::start(Tool::YtDlp, "/h/y".to_string());
    assert!(matches!(l.advance(LookupEvent::LocalFileExists(true)), LookupAction::RunVersionProbe));
    assert_eq!(done(l.advance(LookupEvent::ProbeSucceeded(true))).unwrap(), "yt-dlp");
}
