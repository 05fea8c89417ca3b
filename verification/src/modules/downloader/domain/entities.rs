use vstd::prelude::*;

verus! {

/// The site media is fetched from.
#[derive(Debug, Clone, Copy, PartialEq, Eq, Structural)]
pub enum Provider {
    YouTube,
}

/// Whether a download keeps the picture or only the sound.
#[derive(Debug, Clone, Copy, PartialEq, Eq, Structural)]
pub enum DownloadMode {
    VideoWithAudio,
    AudioOnlyMp3,
}

/// How video downloads trade playability against quality.
#[derive(Debug, Clone, Copy, PartialEq, Eq, Structural)]
pub enum DownloadPreset {
    Compatibility,
    MaxQuality,
}

/// Highest video resolution wanted.
#[derive(Debug, Clone, Copy, PartialEq, Eq, Structural)]
pub enum VideoQuality {
    Best,
    P1080,
    P720,
    P480,
}

/// Highest audio bit rate wanted.
#[derive(Debug, Clone, Copy, PartialEq, Eq, Structural)]
pub enum AudioQuality {
    Best,
    K320,
    K192,
    K128,
}

/// Everything needed to run one download.
#[derive(Debug)]
pub struct DownloadRequest {
    pub provider: Provider,
    pub mode: DownloadMode,
    pub preset: DownloadPreset,
    pub video_quality: VideoQuality,
    pub audio_quality: AudioQuality,
    pub url: String,
    pub output_path: String,
}

/// Mathematical model of a `DownloadRequest`.
pub struct DownloadRequestView {
    pub provider: Provider,
    pub mode: DownloadMode,
    pub preset: DownloadPreset,
    pub video_quality: VideoQuality,
    pub audio_quality: AudioQuality,
    pub url: Seq<char>,
    pub output_path: Seq<char>,
}

impl View for DownloadRequest {
    type V = DownloadRequestView;

    open spec fn view(&self) -> DownloadRequestView {
        DownloadRequestView {
            provider: self.provider,
            mode: self.mode,
            preset: self.preset,
            video_quality: self.video_quality,
            audio_quality: self.audio_quality,
            url: self.url@,
            output_path: self.output_path@,
        }
    }
}

impl Clone for DownloadRequest {
    fn clone(&self) -> (r: Self)
        ensures
            r@ == self@,
    {
        DownloadRequest {
            provider: self.provider,
            mode: self.mode,
            preset: self.preset,
            video_quality: self.video_quality,
            audio_quality: self.audio_quality,
            url: self.url.clone(),
            output_path: self.output_path.clone(),
        }
    }
}

/// How far a download has come: `per_mille` thousandths of the whole, and a
/// line of text describing the current step.
#[derive(Debug)]
pub struct DownloadProgress {
    pub per_mille: u16,
    pub message: String,
}

/// Mathematical model of a `DownloadProgress`.
pub struct DownloadProgressView {
    pub per_mille: u16,
    pub message: Seq<char>,
}

impl View for DownloadProgress {
    type V = DownloadProgressView;

    open spec fn view(&self) -> DownloadProgressView {
        DownloadProgressView { per_mille: self.per_mille, message: self.message@ }
    }
}

impl Clone for DownloadProgress {
    fn clone(&self) -> (r: Self)
        ensures
            r@ == self@,
    {
        DownloadProgress { per_mille: self.per_mille, message: self.message.clone() }
    }
}

/// The newest published release: its version and the page it is offered on.
#[derive(Debug)]
pub struct ReleaseInfo {
    pub version: String,
    pub url: String,
}

/// Mathematical model of a `ReleaseInfo`.
pub struct ReleaseInfoView {
    pub version: Seq<char>,
    pub url: Seq<char>,
}

impl View for ReleaseInfo {
    type V = ReleaseInfoView;

    open spec fn view(&self) -> ReleaseInfoView {
        ReleaseInfoView { version: self.version@, url: self.url@ }
    }
}

impl Clone for ReleaseInfo {
    fn clone(&self) -> (r: Self)
        ensures
            r@ == self@,
    {
        ReleaseInfo { version: self.version.clone(), url: self.url.clone() }
    }
}

/// Whether a newer release than the running one exists.
#[derive(Debug)]
pub enum UpdateStatus {
    UpToDate,
    UpdateAvailable(ReleaseInfo),
}

/// Mathematical model of an `UpdateStatus`.
pub enum UpdateStatusView {
    UpToDate,
    UpdateAvailable(ReleaseInfoView),
}

impl View for UpdateStatus {
    type V = UpdateStatusView;

    open spec fn view(&self) -> UpdateStatusView {
        match self {
            UpdateStatus::UpToDate => UpdateStatusView::UpToDate,
            UpdateStatus::UpdateAvailable(info) => UpdateStatusView::UpdateAvailable(info@),
        }
    }
}

impl Clone for UpdateStatus {
    fn clone(&self) -> (r: Self)
        ensures
            r@ == self@,
    {
        match self {
            UpdateStatus::UpToDate => UpdateStatus::UpToDate,
            UpdateStatus::UpdateAvailable(info) => UpdateStatus::UpdateAvailable(info.clone()),
        }
    }
}

} // verus!
