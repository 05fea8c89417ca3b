use pullyt::modules::downloader::application::use_cases::DependencyReport;
use pullyt::modules::downloader::domain::entities::{
    AudioQuality, DownloadMode, DownloadPreset, DownloadProgress, ReleaseInfo, UpdateStatus,
    VideoQuality,
};
use pullyt::modules::downloader::infrastructure::github_releases::{
    latest_release_url, release_info_from_tag, release_user_agent,
};
use pullyt::modules::downloader::presentation::app::{AppPhase, Effect, Message, PullytApp};

fn fresh() -> PullytApp {
    let (app, effect) = PullytApp::new("1.0.0".to_string());
    assert!(matches!(effect, Effect::CheckForUpdates));
    app
}

#[test]
fn starts_checking_for_updates() {
    let app = fresh();
    assert!(matches!(app.phase, AppPhase::CheckingUpdates));
    assert!(app.busy);
    assert_eq!(app.status, "Checking for updates...");
    assert_eq!(app.mode, DownloadMode::VideoWithAudio);
    assert_eq!(app.preset, DownloadPreset::Compatibility);
    assert_eq!(app.version_label(), "v1.0.0");
    assert_eq!(app.title(), "Pullyt - YouTube Downloader");
}

#[test]
fn update_available_shows_gate() {
    let mut app = fresh();
    let release = ReleaseInfo { version: "1.1.0".to_string(), url: "https://r".to_string() };
    let e = app.update(Message::CheckUpdatesComplete(UpdateStatus::UpdateAvailable(release)));
    assert!(matches!(e, Effect::Nothing));
    assert!(app.shows_update_gate());
    assert!(!app.busy);
    match app.update(Message::OpenReleaseLink) {
        Effect::OpenLink(u) => assert_eq!(u, "https://r"),
        other => panic!("unexpected {:?}", other),
    }
    let e = app.update(Message::SkipUpdateAndContinue);
    assert!(matches!(e, Effect::BootstrapDependencies));
    assert!(matches!(app.phase, AppPhase::Main));
    assert!(app.busy);
}

#[test]
fn up_to_date_bootstraps() {
    let mut app = fresh();
    let e = app.update(Message::CheckUpdatesComplete(UpdateStatus::UpToDate));
    assert!(matches!(e, Effect::BootstrapDependencies));
    assert_eq!(app.status, "Bootstrapping dependencies...");
    assert!(matches!(app.update(Message::OpenReleaseLink), Effect::Nothing));
    let report = DependencyReport { yt_dlp: "yt-dlp".to_string(), ffmpeg: "/h/ffmpeg".to_string(), ffprobe: "ffprobe".to_string() };
    app.update(Message::BootstrapComplete(Ok(report)));
    assert!(!app.busy);
    assert_eq!(app.status, "Ready");
    assert_eq!(app.dependency_info, "Dependencies\nyt-dlp: yt-dlp\nffmpeg: /h/ffmpeg\nffprobe: ffprobe");
}

#[test]
fn bootstrap_error_is_shown() {
    let mut app = fresh();
    app.update(Message::BootstrapComplete(Err("ffmpeg not available".to_string())));
    assert_eq!(app.status, "Dependency error: ffmpeg not available");
    assert!(app.can_start_download());
}

#[test]
fn download_cycle() {
    let mut app = fresh();
    app.update(Message::BootstrapComplete(Err("x".to_string())));
    app.update(Message::UrlChanged("https://youtu.be/a".to_string()));
    app.update(Message::ModeChanged(DownloadMode::AudioOnlyMp3));
    app.update(Message::VideoQualityChanged(VideoQuality::P480));
    app.update(Message::AudioQualityChanged(AudioQuality::K128));
    app.update(Message::PresetChanged(DownloadPreset::MaxQuality));
    assert!(!app.shows_preset_choice());
    assert!(app.download_job().is_none());
    app.update(Message::DownloadPressed);
    let job = app.download_job().unwrap();
    assert_eq!(job.url, "https://youtu.be/a");
    assert_eq!(job.mode, DownloadMode::AudioOnlyMp3);
    assert_eq!(job.audio_quality, AudioQuality::K128);
    assert_eq!(job.output_path, "");
    assert_eq!(app.status, "Preparing download...");
    app.update(Message::DownloadProgressed(DownloadProgress { per_mille: 424, message: "Downloading 42%".to_string() }));
    assert_eq!(app.progress_per_mille, 424);
    app.update(Message::DownloadComplete(Ok(())));
    assert_eq!(app.progress_per_mille, 1000);
    assert_eq!(app.status, "Finished");
    assert!(app.download_job().is_none());
    app.update(Message::DownloadPressed);
    app.update(Message::DownloadComplete(Err("download canceled".to_string())));
    assert_eq!(app.status, "Download failed: download canceled");
    assert!(!app.busy);
}

#[test]
fn github_link() {
    let mut app = fresh();
    match app.update(Message::OpenGithub) {
        Effect::OpenLink(u) => assert_eq!(u, "https://github.com/pausegarra/pullyt"),
        other => panic!("unexpected {:?}", other),
    }
}

#[test]
fn release_tags() {
    let info = release_info_from_tag("v2.3.4", "https://github.com/x/releases/tag/v2.3.4");
    assert_eq!(info.version, "2.3.4");
    assert_eq!(info.url, "https://github.com/x/releases/tag/v2.3.4");
    assert_eq!(release_info_from_tag("2.3.4", "u").version, "2.3.4");
    assert_eq!(latest_release_url(), "https://api.github.com/repos/pausegarra/pullryn/releases/latest");
    assert_eq!(release_user_agent(), "pullryn update-check");
}
