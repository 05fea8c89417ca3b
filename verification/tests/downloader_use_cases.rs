use std::cell::RefCell;
use std::sync::{Arc, Mutex};

use pullyt::modules::downloader::application::use_cases::{
    BootstrapDependenciesUseCase, DownloadMediaUseCase,
};
use pullyt::modules::downloader::domain::entities::{
    AudioQuality, DownloadMode, DownloadPreset, DownloadProgress, DownloadRequest, Provider,
    VideoQuality,
};
use pullyt::modules::downloader::domain::errors::DownloaderError;
use pullyt::modules::downloader::domain::ports::{DependencyPort, DownloadPort, SaveDialogPort};

struct OkDeps;
impl DependencyPort for OkDeps {
    fn ensure_yt_dlp(&self) -> Result<String, DownloaderError> {
        Ok("yt-dlp".to_string())
    }
    fn ensure_ffmpeg(&self) -> Result<String, DownloaderError> {
        Ok("ffmpeg".to_string())
    }
    fn ensure_ffprobe(&self) -> Result<String, DownloaderError> {
        Ok("ffprobe".to_string())
    }
}

struct FakeDialog;
impl SaveDialogPort for FakeDialog {
    fn choose_output_file(
        &self,
        _mode: DownloadMode,
        _preset: DownloadPreset,
        _title: &str,
    ) -> Option<String> {
        Some("/tmp/out.mp4".to_string())
    }
}

struct FakeDownload;
impl DownloadPort for FakeDownload {
    fn run_download<F: FnMut(DownloadProgress)>(
        &self,
        _request: &DownloadRequest,
        _ffmpeg_path: &str,
        on_progress: &mut F,
    ) -> Result<(), DownloaderError> {
        on_progress(DownloadProgress {
            per_mille: 1000,
            message: "Finished".to_string(),
        });
        Ok(())
    }

    fn get_title(&self, _url: &str) -> Result<String, DownloaderError> {
        Ok("Test Video Title".to_string())
    }
}

#[test]
fn rejects_invalid_url() {
    let use_case = DownloadMediaUseCase::new(Arc::new(OkDeps), Arc::new(FakeDialog), Arc::new(FakeDownload));
    let request = DownloadRequest {
        provider: Provider::YouTube,
        mode: DownloadMode::VideoWithAudio,
        preset: DownloadPreset::Compatibility,
        video_quality: VideoQuality::Best,
        audio_quality: AudioQuality::Best,
        url: "https://example.com/not-youtube".to_string(),
        output_path: String::new(),
    };
    let result = use_case.execute(request, &mut |_| {});
    assert!(matches!(result, Err(DownloaderError::InvalidUrl)));
}

fn request(url: &str) -> DownloadRequest {
    DownloadRequest {
        provider: Provider::YouTube,
        mode: DownloadMode::AudioOnlyMp3,
        preset: DownloadPreset::MaxQuality,
        video_quality: VideoQuality::P720,
        audio_quality: AudioQuality::K192,
        url: url.to_string(),
        output_path: String::new(),
    }
}

/// Records what reached it.
struct RecordingDownload {
    seen: Mutex<Vec<(String, String, String)>>,
    title: Result<String, DownloaderError>,
}
impl DownloadPort for RecordingDownload {
    fn run_download<F: FnMut(DownloadProgress)>(
        &self,
        request: &DownloadRequest,
        ffmpeg_path: &str,
        _on_progress: &mut F,
    ) -> Result<(), DownloaderError> {
        self.seen.lock().unwrap().push((
            request.url.clone(),
            request.output_path.clone(),
            ffmpeg_path.to_string(),
        ));
        Ok(())
    }

    fn get_title(&self, _url: &str) -> Result<String, DownloaderError> {
        self.title.clone()
    }
}

struct TitleDialog {
    seen_title: Mutex<Option<String>>,
    answer: Option<String>,
}
impl SaveDialogPort for TitleDialog {
    fn choose_output_file(
        &self,
        mode: DownloadMode,
        preset: DownloadPreset,
        title: &str,
    ) -> Option<String> {
        assert_eq!(mode, DownloadMode::AudioOnlyMp3);
        assert_eq!(preset, DownloadPreset::MaxQuality);
        *self.seen_title.lock().unwrap() = Some(title.to_string());
        self.answer.clone()
    }
}

#[test]
fn downloads_with_trimmed_link_and_chosen_file() {
    let download = Arc::new(RecordingDownload { seen: Mutex::new(Vec::new()), title: Ok("Song".to_string()) });
    let dialog = Arc::new(TitleDialog { seen_title: Mutex::new(None), answer: Some("/music/song.mp3".to_string()) });
    let use_case = DownloadMediaUseCase::new(Arc::new(OkDeps), dialog.clone(), download.clone());
    let progress = RefCell::new(Vec::new());
    let result = use_case.execute(request("  https://youtu.be/abc  "), &mut |p: DownloadProgress| {
        progress.borrow_mut().push((p.per_mille, p.message))
    });
    assert!(result.is_ok());
    assert_eq!(
        download.seen.lock().unwrap().clone(),
        vec![(
            "https://youtu.be/abc".to_string(),
            "/music/song.mp3".to_string(),
            "ffmpeg".to_string()
        )]
    );
    assert_eq!(dialog.seen_title.lock().unwrap().clone(), Some("Song".to_string()));
    assert_eq!(progress.into_inner(), vec![(0, "Checking dependencies".to_string())]);
}

#[test]
fn canceled_dialog_stops_before_download() {
    let download = Arc::new(RecordingDownload { seen: Mutex::new(Vec::new()), title: Ok("x".to_string()) });
    let dialog = Arc::new(TitleDialog { seen_title: Mutex::new(None), answer: None });
    let use_case = DownloadMediaUseCase::new(Arc::new(OkDeps), dialog, download.clone());
    let result = use_case.execute(request("https://youtu.be/abc"), &mut |_| {});
    assert!(matches!(result, Err(DownloaderError::SaveCanceled)));
    assert!(download.seen.lock().unwrap().is_empty());
}

#[test]
fn missing_title_suggests_no_title() {
    let download = Arc::new(RecordingDownload {
        seen: Mutex::new(Vec::new()),
        title: Err(DownloaderError::ProcessFailed("no title".to_string())),
    });
    let dialog = Arc::new(TitleDialog { seen_title: Mutex::new(None), answer: Some("/a.mp3".to_string()) });
    let use_case = DownloadMediaUseCase::new(Arc::new(OkDeps), dialog.clone(), download);
    assert!(use_case.execute(request("https://youtu.be/abc"), &mut |_| {}).is_ok());
    assert_eq!(dialog.seen_title.lock().unwrap().clone(), Some(String::new()));
}

struct NoFfmpeg;
impl DependencyPort for NoFfmpeg {
    fn ensure_yt_dlp(&self) -> Result<String, DownloaderError> {
        Ok("/home/u/.pullyt/yt-dlp".to_string())
    }
    fn ensure_ffmpeg(&self) -> Result<String, DownloaderError> {
        Err(DownloaderError::FfmpegUnavailable)
    }
    fn ensure_ffprobe(&self) -> Result<String, DownloaderError> {
        panic!("must not be asked after ffmpeg failed")
    }
}

#[test]
fn dependency_error_stops_download() {
    let download = Arc::new(RecordingDownload { seen: Mutex::new(Vec::new()), title: Ok("x".to_string()) });
    let use_case = DownloadMediaUseCase::new(Arc::new(NoFfmpeg), Arc::new(FakeDialog), download.clone());
    let result = use_case.execute(request("https://youtu.be/abc"), &mut |_| {});
    assert!(matches!(result, Err(DownloaderError::FfmpegUnavailable)));
    assert!(download.seen.lock().unwrap().is_empty());
}

#[test]
fn bootstrap_reports_each_tool() {
    let report = BootstrapDependenciesUseCase::new(Arc::new(OkDeps)).execute().unwrap();
    assert_eq!(report.yt_dlp, "yt-dlp");
    assert_eq!(report.ffmpeg, "ffmpeg");
    assert_eq!(report.ffprobe, "ffprobe");
}

#[test]
fn bootstrap_stops_at_first_missing_tool() {
    let result = BootstrapDependenciesUseCase::new(Arc::new(NoFfmpeg)).execute();
    assert!(matches!(result, Err(DownloaderError::FfmpegUnavailable)));
}
