//! The window's state and how each message changes it. Drawing the window and
//! carrying out the returned effects is left to the caller.
use vstd::prelude::*;

use crate::modules::downloader::application::use_cases::{DependencyReport, DependencyReportView};
use crate::modules::downloader::domain::entities::{
    AudioQuality, DownloadMode, DownloadPreset, DownloadProgress, DownloadProgressView,
    DownloadRequest, DownloadRequestView, Provider, ReleaseInfoView, UpdateStatus, UpdateStatusView,
    VideoQuality,
};
use crate::text::contains;

verus! {

/// Which screen the window shows.
#[derive(Debug)]
pub enum AppPhase {
    CheckingUpdates,
    UpdateGate { release_url: String, latest_version: String },
    Main,
}

pub enum AppPhaseView {
    CheckingUpdates,
    UpdateGate { release_url: Seq<char>, latest_version: Seq<char> },
    Main,
}

impl View for AppPhase {
    type V = AppPhaseView;

    open spec fn view(&self) -> AppPhaseView {
        match self {
            AppPhase::CheckingUpdates => AppPhaseView::CheckingUpdates,
            AppPhase::UpdateGate { release_url, latest_version } => AppPhaseView::UpdateGate {
                release_url: release_url@,
                latest_version: latest_version@,
            },
            AppPhase::Main => AppPhaseView::Main,
        }
    }
}

/// What the user or a finished task tells the window.
#[derive(Debug)]
pub enum Message {
    CheckUpdatesComplete(UpdateStatus),
    OpenReleaseLink,
    SkipUpdateAndContinue,
    UrlChanged(String),
    ModeChanged(DownloadMode),
    PresetChanged(DownloadPreset),
    VideoQualityChanged(VideoQuality),
    AudioQualityChanged(AudioQuality),
    /// `Err` holds the error's text.
    BootstrapComplete(Result<DependencyReport, String>),
    DownloadPressed,
    DownloadProgressed(DownloadProgress),
    /// `Err` holds the error's text.
    DownloadComplete(Result<(), String>),
    OpenGithub,
}

pub enum MessageView {
    CheckUpdatesComplete(UpdateStatusView),
    OpenReleaseLink,
    SkipUpdateAndContinue,
    UrlChanged(Seq<char>),
    ModeChanged(DownloadMode),
    PresetChanged(DownloadPreset),
    VideoQualityChanged(VideoQuality),
    AudioQualityChanged(AudioQuality),
    BootstrapComplete(Result<DependencyReportView, Seq<char>>),
    DownloadPressed,
    DownloadProgressed(DownloadProgressView),
    DownloadComplete(Result<(), Seq<char>>),
    OpenGithub,
}

impl View for Message {
    type V = MessageView;

    open spec fn view(&self) -> MessageView {
        match self {
            Message::CheckUpdatesComplete(s) => MessageView::CheckUpdatesComplete(s@),
            Message::OpenReleaseLink => MessageView::OpenReleaseLink,
            Message::SkipUpdateAndContinue => MessageView::SkipUpdateAndContinue,
            Message::UrlChanged(u) => MessageView::UrlChanged(u@),
            Message::ModeChanged(m) => MessageView::ModeChanged(*m),
            Message::PresetChanged(p) => MessageView::PresetChanged(*p),
            Message::VideoQualityChanged(v) => MessageView::VideoQualityChanged(*v),
            Message::AudioQualityChanged(a) => MessageView::AudioQualityChanged(*a),
            Message::BootstrapComplete(r) => MessageView::BootstrapComplete(
                match r {
                    Ok(rep) => Ok(rep@),
                    Err(e) => Err(e@),
                },
            ),
            Message::DownloadPressed => MessageView::DownloadPressed,
            Message::DownloadProgressed(p) => MessageView::DownloadProgressed(p@),
            Message::DownloadComplete(r) => MessageView::DownloadComplete(
                match r {
                    Ok(()) => Ok(()),
                    Err(e) => Err(e@),
                },
            ),
            Message::OpenGithub => MessageView::OpenGithub,
        }
    }
}

impl Clone for Message {
    fn clone(&self) -> (r: Self)
        ensures
            r@ == self@,
    {
        match self {
            Message::CheckUpdatesComplete(s) => Message::CheckUpdatesComplete(s.clone()),
            Message::OpenReleaseLink => Message::OpenReleaseLink,
            Message::SkipUpdateAndContinue => Message::SkipUpdateAndContinue,
            Message::UrlChanged(u) => Message::UrlChanged(u.clone()),
            Message::ModeChanged(m) => Message::ModeChanged(*m),
            Message::PresetChanged(p) => Message::PresetChanged(*p),
            Message::VideoQualityChanged(v) => Message::VideoQualityChanged(*v),
            Message::AudioQualityChanged(a) => Message::AudioQualityChanged(*a),
            Message::BootstrapComplete(r) => Message::BootstrapComplete(
                match r {
                    Ok(rep) => Ok(rep.clone()),
                    Err(e) => Err(e.clone()),
                },
            ),
            Message::DownloadPressed => Message::DownloadPressed,
            Message::DownloadProgressed(p) => Message::DownloadProgressed(p.clone()),
            Message::DownloadComplete(r) => Message::DownloadComplete(
                match r {
                    Ok(()) => Ok(()),
                    Err(e) => Err(e.clone()),
                },
            ),
            Message::OpenGithub => Message::OpenGithub,
        }
    }
}

/// Work the window asks to have done after a message.
#[derive(Debug)]
pub enum Effect {
    Nothing,
    /// Look up the newest release; answer with `CheckUpdatesComplete`.
    CheckForUpdates,
    /// Find or install the tools; answer with `BootstrapComplete`.
    BootstrapDependencies,
    /// Open a web address in the browser.
    OpenLink(String),
}

pub enum EffectView {
    Nothing,
    CheckForUpdates,
    BootstrapDependencies,
    OpenLink(Seq<char>),
}

impl View for Effect {
    type V = EffectView;

    open spec fn view(&self) -> EffectView {
        match self {
            Effect::Nothing => EffectView::Nothing,
            Effect::CheckForUpdates => EffectView::CheckForUpdates,
            Effect::BootstrapDependencies => EffectView::BootstrapDependencies,
            Effect::OpenLink(u) => EffectView::OpenLink(u@),
        }
    }
}

/// The window's state. `progress_per_mille` is how much of the download is
/// done, in thousandths; `busy` is set while a task runs.
#[derive(Debug)]
pub struct PullytApp {
    pub phase: AppPhase,
    pub current_version: String,
    pub url: String,
    pub mode: DownloadMode,
    pub preset: DownloadPreset,
    pub video_quality: VideoQuality,
    pub audio_quality: AudioQuality,
    pub progress_per_mille: u16,
    pub status: String,
    pub dependency_info: String,
    pub pending_request: Option<DownloadRequest>,
    pub busy: bool,
}

pub struct PullytAppView {
    pub phase: AppPhaseView,
    pub current_version: Seq<char>,
    pub url: Seq<char>,
    pub mode: DownloadMode,
    pub preset: DownloadPreset,
    pub video_quality: VideoQuality,
    pub audio_quality: AudioQuality,
    pub progress_per_mille: u16,
    pub status: Seq<char>,
    pub dependency_info: Seq<char>,
    pub pending_request: Option<DownloadRequestView>,
    pub busy: bool,
}

impl View for PullytApp {
    type V = PullytAppView;

    open spec fn view(&self) -> PullytAppView {
        PullytAppView {
            phase: self.phase@,
            current_version: self.current_version@,
            url: self.url@,
            mode: self.mode,
            preset: self.preset,
            video_quality: self.video_quality,
            audio_quality: self.audio_quality,
            progress_per_mille: self.progress_per_mille,
            status: self.status@,
            dependency_info: self.dependency_info@,
            pending_request: match self.pending_request {
                Some(r) => Some(r@),
                None => None,
            },
            busy: self.busy,
        }
    }
}

pub open spec fn github_page() -> Seq<char> {
    "https://github.com/pausegarra/pullyt"@
}

/// The window as it opens: checking for updates, with video and audio at the
/// best quality in the compatible preset.
pub open spec fn initial_state(current_version: Seq<char>) -> PullytAppView {
    PullytAppView {
        phase: AppPhaseView::CheckingUpdates,
        current_version,
        url: Seq::empty(),
        mode: DownloadMode::VideoWithAudio,
        preset: DownloadPreset::Compatibility,
        video_quality: VideoQuality::Best,
        audio_quality: AudioQuality::Best,
        progress_per_mille: 0,
        status: "Checking for updates..."@,
        dependency_info: Seq::empty(),
        pending_request: None,
        busy: true,
    }
}

/// The text listing where each tool was found.
pub open spec fn dependency_summary(r: DependencyReportView) -> Seq<char> {
    "Dependencies\nyt-dlp: "@ + r.yt_dlp + "\nffmpeg: "@ + r.ffmpeg + "\nffprobe: "@ + r.ffprobe
}

/// The download the settings on screen describe.
pub open spec fn request_from(s: PullytAppView) -> DownloadRequestView {
    DownloadRequestView {
        provider: Provider::YouTube,
        mode: s.mode,
        preset: s.preset,
        video_quality: s.video_quality,
        audio_quality: s.audio_quality,
        url: s.url,
        output_path: Seq::empty(),
    }
}

/// How a message changes the window, and what it asks to have done.
pub open spec fn app_update(s: PullytAppView, m: MessageView) -> (PullytAppView, EffectView) {
    match m {
        MessageView::CheckUpdatesComplete(status) => match status {
            UpdateStatusView::UpdateAvailable(release) => (
                PullytAppView {
                    phase: AppPhaseView::UpdateGate {
                        release_url: release.url,
                        latest_version: release.version,
                    },
                    status: "A new version is available."@,
                    busy: false,
                    ..s
                },
                EffectView::Nothing,
            ),
            UpdateStatusView::UpToDate => (
                PullytAppView {
                    phase: AppPhaseView::Main,
                    status: "Bootstrapping dependencies..."@,
                    ..s
                },
                EffectView::BootstrapDependencies,
            ),
        },
        MessageView::OpenReleaseLink => match s.phase {
            AppPhaseView::UpdateGate { release_url, .. } => (s, EffectView::OpenLink(release_url)),
            _ => (s, EffectView::Nothing),
        },
        MessageView::SkipUpdateAndContinue => (
            PullytAppView {
                phase: AppPhaseView::Main,
                status: "Bootstrapping dependencies..."@,
                busy: true,
                ..s
            },
            EffectView::BootstrapDependencies,
        ),
        MessageView::UrlChanged(u) => (PullytAppView { url: u, ..s }, EffectView::Nothing),
        MessageView::ModeChanged(v) => (PullytAppView { mode: v, ..s }, EffectView::Nothing),
        MessageView::PresetChanged(v) => (PullytAppView { preset: v, ..s }, EffectView::Nothing),
        MessageView::VideoQualityChanged(v) => (
            PullytAppView { video_quality: v, ..s },
            EffectView::Nothing,
        ),
        MessageView::AudioQualityChanged(v) => (
            PullytAppView { audio_quality: v, ..s },
            EffectView::Nothing,
        ),
        MessageView::BootstrapComplete(r) => match r {
            Ok(report) => (
                PullytAppView {
                    busy: false,
                    status: "Ready"@,
                    dependency_info: dependency_summary(report),
                    ..s
                },
                EffectView::Nothing,
            ),
            Err(e) => (
                PullytAppView { busy: false, status: "Dependency error: "@ + e, ..s },
                EffectView::Nothing,
            ),
        },
        MessageView::DownloadPressed => (
            PullytAppView {
                busy: true,
                progress_per_mille: 0,
                status: "Preparing download..."@,
                pending_request: Some(request_from(s)),
                ..s
            },
            EffectView::Nothing,
        ),
        MessageView::DownloadProgressed(p) => (
            PullytAppView { progress_per_mille: p.per_mille, status: p.message, ..s },
            EffectView::Nothing,
        ),
        MessageView::DownloadComplete(r) => match r {
            Ok(()) => (
                PullytAppView {
                    busy: false,
                    pending_request: None,
                    progress_per_mille: 1000,
                    status: "Finished"@,
                    ..s
                },
                EffectView::Nothing,
            ),
            Err(e) => (
                PullytAppView {
                    busy: false,
                    pending_request: None,
                    status: "Download failed: "@ + e,
                    ..s
                },
                EffectView::Nothing,
            ),
        },
        MessageView::OpenGithub => (s, EffectView::OpenLink(github_page())),
    }
}

/// The download a running window should be carrying out, if any.
pub open spec fn download_job_of(s: PullytAppView) -> Option<DownloadRequestView> {
    if s.busy {
        s.pending_request
    } else {
        None
    }
}

impl PullytApp {
    /// The window as it opens, and the update check it starts with.
    pub fn new(current_version: String) -> (r: (PullytApp, Effect))
        ensures
            r.0@ == initial_state(current_version@),
            r.1@ == EffectView::CheckForUpdates,
    {
        let app = PullytApp {
            phase: AppPhase::CheckingUpdates,
            current_version,
            url: String::new(),
            mode: DownloadMode::VideoWithAudio,
            preset: DownloadPreset::Compatibility,
            video_quality: VideoQuality::Best,
            audio_quality: AudioQuality::Best,
            progress_per_mille: 0,
            status: "Checking for updates...".to_owned(),
            dependency_info: String::new(),
            pending_request: None,
            busy: true,
        };
        (app, Effect::CheckForUpdates)
    }

    pub fn title(&self) -> (r: &'static str)
        ensures
            r@ == "Pullyt - YouTube Downloader"@,
    {
        "Pullyt - YouTube Downloader"
    }

    /// Applies a message.
    pub fn update(&mut self, message: Message) -> (e: Effect)
        ensures
            (final(self)@, e@) == app_update(old(self)@, message@),
    {
        match message {
            Message::CheckUpdatesComplete(status) => match status {
                UpdateStatus::UpdateAvailable(release) => {
                    self.phase = AppPhase::UpdateGate {
                        release_url: release.url,
                        latest_version: release.version,
                    };
                    self.status = "A new version is available.".to_owned();
                    self.busy = false;
                    Effect::Nothing
                },
                UpdateStatus::UpToDate => {
                    self.phase = AppPhase::Main;
                    self.status = "Bootstrapping dependencies...".to_owned();
                    Effect::BootstrapDependencies
                },
            },
            Message::OpenReleaseLink => match &self.phase {
                AppPhase::UpdateGate { release_url, .. } => Effect::OpenLink(release_url.clone()),
                _ => Effect::Nothing,
            },
            Message::SkipUpdateAndContinue => {
                self.phase = AppPhase::Main;
                self.status = "Bootstrapping dependencies...".to_owned();
                self.busy = true;
                Effect::BootstrapDependencies
            },
            Message::UrlChanged(v) => {
                self.url = v;
                Effect::Nothing
            },
            Message::ModeChanged(v) => {
                self.mode = v;
                Effect::Nothing
            },
            Message::PresetChanged(v) => {
                self.preset = v;
                Effect::Nothing
            },
            Message::VideoQualityChanged(v) => {
                self.video_quality = v;
                Effect::Nothing
            },
            Message::AudioQualityChanged(v) => {
                self.audio_quality = v;
                Effect::Nothing
            },
            Message::BootstrapComplete(res) => {
                self.busy = false;
                match res {
                    Ok(report) => {
                        self.status = "Ready".to_owned();
                        let mut info = crate::text::concat(
                            "Dependencies\nyt-dlp: ",
                            report.yt_dlp.as_str(),
                        );
                        info.append("\nffmpeg: ");
                        info.append(report.ffmpeg.as_str());
                        info.append("\nffprobe: ");
                        info.append(report.ffprobe.as_str());
                        self.dependency_info = info;
                    },
                    Err(e) => {
                        self.status = crate::text::concat("Dependency error: ", e.as_str());
                    },
                }
                Effect::Nothing
            },
            Message::DownloadPressed => {
                self.busy = true;
                self.progress_per_mille = 0;
                self.status = "Preparing download...".to_owned();
                self.pending_request = Some(
                    DownloadRequest {
                        provider: Provider::YouTube,
                        mode: self.mode,
                        preset: self.preset,
                        video_quality: self.video_quality,
                        audio_quality: self.audio_quality,
                        url: self.url.clone(),
                        output_path: String::new(),
                    },
                );
                Effect::Nothing
            },
            Message::DownloadProgressed(progress) => {
                self.progress_per_mille = progress.per_mille;
                self.status = progress.message;
                Effect::Nothing
            },
            Message::DownloadComplete(result) => {
                self.busy = false;
                self.pending_request = None;
                match result {
                    Ok(()) => {
                        self.progress_per_mille = 1000;
                        self.status = "Finished".to_owned();
                    },
                    Err(e) => {
                        self.status = crate::text::concat("Download failed: ", e.as_str());
                    },
                }
                Effect::Nothing
            },
            Message::OpenGithub => Effect::OpenLink("https://github.com/pausegarra/pullyt".to_owned()),
        }
    }

    /// The download to carry out while the window is busy with one.
    pub fn download_job(&self) -> (r: Option<DownloadRequest>)
        ensures
            match (r, download_job_of(self@)) {
                (Some(q), Some(w)) => q@ == w,
                (None, None) => true,
                _ => false,
            },
    {
        if !self.busy {
            return None;
        }
        match &self.pending_request {
            Some(q) => Some(q.clone()),
            None => None,
        }
    }

    /// Whether the update screen is shown.
    pub fn shows_update_gate(&self) -> (b: bool)
        ensures
            b <==> self@.phase is UpdateGate,
    {
        match &self.phase {
            AppPhase::UpdateGate { .. } => true,
            _ => false,
        }
    }

    /// Whether the download button can be pressed.
    pub fn can_start_download(&self) -> (b: bool)
        ensures
            b == !self.busy,
    {
        !self.busy
    }

    /// Whether the preset choice is shown: only for video downloads.
    pub fn shows_preset_choice(&self) -> (b: bool)
        ensures
            b == (self.mode == DownloadMode::VideoWithAudio),
    {
        self.mode == DownloadMode::VideoWithAudio
    }

    /// The running version as shown: `v` and the version.
    pub fn version_label(&self) -> (r: String)
        ensures
            r@ == "v"@ + self.current_version@,
    {
        crate::text::concat("v", self.current_version.as_str())
    }
}

/// A finished download, however it ended, leaves the window idle with no
/// download pending.
pub proof fn law_completion_leaves_idle(s: PullytAppView, r: Result<(), Seq<char>>)
    ensures
        !app_update(s, MessageView::DownloadComplete(r)).0.busy,
        download_job_of(app_update(s, MessageView::DownloadComplete(r)).0) is None,
{
}

/// Pressing download makes the settings on screen the running download.
pub proof fn law_press_starts_job(s: PullytAppView)
    ensures
        download_job_of(app_update(s, MessageView::DownloadPressed).0) == Some(request_from(s)),
{
}

/// The update screen is entered only when an update is reported, and shows
/// that release; opening its link changes nothing in the window.
pub proof fn law_update_gate_only_for_updates(s: PullytAppView, m: MessageView)
    ensures
        (app_update(s, m).0.phase is UpdateGate && !(s.phase is UpdateGate)) ==> (m matches MessageView::CheckUpdatesComplete(
            UpdateStatusView::UpdateAvailable(release),
        ) && app_update(s, m).0.phase == (AppPhaseView::UpdateGate {
            release_url: release.url,
            latest_version: release.version,
        })),
        m is OpenReleaseLink ==> app_update(s, m).0 == s,
{
}

/// Progress stays within the whole (at most 1000 thousandths) as long as the
/// progress reported does; the answer of the tool lookup always leaves the
/// window idle.
pub proof fn law_progress_in_range(s: PullytAppView, m: MessageView)
    requires
        s.progress_per_mille <= 1000,
        m matches MessageView::DownloadProgressed(p) ==> p.per_mille <= 1000,
    ensures
        app_update(s, m).0.progress_per_mille <= 1000,
        m is BootstrapComplete ==> !app_update(s, m).0.busy,
{
}

/// Changing a setting changes that setting alone and asks for nothing.
pub proof fn law_settings_are_independent(s: PullytAppView, m: MessageView)
    requires
        m is UrlChanged || m is ModeChanged || m is PresetChanged || m is VideoQualityChanged
            || m is AudioQualityChanged,
    ensures
        app_update(s, m).1 == EffectView::Nothing,
        app_update(s, m).0.phase == s.phase,
        app_update(s, m).0.busy == s.busy,
        app_update(s, m).0.status == s.status,
        app_update(s, m).0.pending_request == s.pending_request,
{
}

/// Each setting message sets the setting it names to the value it carries and
/// leaves the other settings as they were.
pub proof fn law_setting_messages_take_effect(
    s: PullytAppView,
    url: Seq<char>,
    mode: DownloadMode,
    preset: DownloadPreset,
    video: VideoQuality,
    audio: AudioQuality,
)
    ensures
        ({
            let t = app_update(s, MessageView::UrlChanged(url)).0;
            t.url == url && t.mode == s.mode && t.preset == s.preset && t.video_quality == s.video_quality
                && t.audio_quality == s.audio_quality
        }),
        ({
            let t = app_update(s, MessageView::ModeChanged(mode)).0;
            t.url == s.url && t.mode == mode && t.preset == s.preset && t.video_quality == s.video_quality
                && t.audio_quality == s.audio_quality
        }),
        ({
            let t = app_update(s, MessageView::PresetChanged(preset)).0;
            t.url == s.url && t.mode == s.mode && t.preset == preset && t.video_quality == s.video_quality
                && t.audio_quality == s.audio_quality
        }),
        ({
            let t = app_update(s, MessageView::VideoQualityChanged(video)).0;
            t.url == s.url && t.mode == s.mode && t.preset == s.preset && t.video_quality == video
                && t.audio_quality == s.audio_quality
        }),
        ({
            let t = app_update(s, MessageView::AudioQualityChanged(audio)).0;
            t.url == s.url && t.mode == s.mode && t.preset == s.preset && t.video_quality == s.video_quality
                && t.audio_quality == audio
        }),
{
}

/// The download started by pressing the button asks for exactly the settings
/// on screen: the link, mode, preset and qualities, from YouTube, with the
/// output file still to be chosen; so a setting changed just before is the
/// one downloaded.
pub proof fn law_download_uses_settings_on_screen(s: PullytAppView, video: VideoQuality, audio: AudioQuality)
    ensures
        ({
            let job = download_job_of(app_update(s, MessageView::DownloadPressed).0);
            &&& job is Some
            &&& job->0.url == s.url
            &&& job->0.mode == s.mode
            &&& job->0.preset == s.preset
            &&& job->0.video_quality == s.video_quality
            &&& job->0.audio_quality == s.audio_quality
            &&& job->0.provider == Provider::YouTube
            &&& job->0.output_path.len() == 0
        }),
        download_job_of(
            app_update(app_update(s, MessageView::VideoQualityChanged(video)).0, MessageView::DownloadPressed).0,
        )->0.video_quality == video,
        download_job_of(
            app_update(app_update(s, MessageView::AudioQualityChanged(audio)).0, MessageView::DownloadPressed).0,
        )->0.audio_quality == audio,
{
}

/// What each step of a download shows: pressing starts at 0 with "Preparing
/// download..."; a progress report shows its amount and message; success
/// shows the whole and "Finished"; failure shows "Download failed: " and the
/// reason, keeping the progress reached; the tool lookup shows "Ready" and
/// where each tool is, or "Dependency error: " and the reason.
pub proof fn law_download_steps_show_their_state(
    s: PullytAppView,
    p: DownloadProgressView,
    reason: Seq<char>,
    report: DependencyReportView,
)
    ensures
        app_update(s, MessageView::DownloadPressed).0.progress_per_mille == 0,
        app_update(s, MessageView::DownloadPressed).0.status == "Preparing download..."@,
        app_update(s, MessageView::DownloadProgressed(p)).0.progress_per_mille == p.per_mille,
        app_update(s, MessageView::DownloadProgressed(p)).0.status == p.message,
        app_update(s, MessageView::DownloadComplete(Ok(()))).0.progress_per_mille == 1000,
        app_update(s, MessageView::DownloadComplete(Ok(()))).0.status == "Finished"@,
        app_update(s, MessageView::DownloadComplete(Err(reason))).0.progress_per_mille == s.progress_per_mille,
        app_update(s, MessageView::DownloadComplete(Err(reason))).0.status == "Download failed: "@ + reason,
        app_update(s, MessageView::BootstrapComplete(Ok(report))).0.status == "Ready"@,
        contains(app_update(s, MessageView::BootstrapComplete(Ok(report))).0.dependency_info, report.yt_dlp),
        contains(app_update(s, MessageView::BootstrapComplete(Ok(report))).0.dependency_info, report.ffmpeg),
        contains(app_update(s, MessageView::BootstrapComplete(Ok(report))).0.dependency_info, report.ffprobe),
        app_update(s, MessageView::BootstrapComplete(Err(reason))).0.status == "Dependency error: "@ + reason,
{
    let pre_y = "Dependencies\nyt-dlp: "@;
    let pre_f = pre_y + report.yt_dlp + "\nffmpeg: "@;
    let pre_p = pre_f + report.ffmpeg + "\nffprobe: "@;
    crate::text::lemma_contains_inside(pre_y, report.yt_dlp, "\nffmpeg: "@ + report.ffmpeg + "\nffprobe: "@ + report.ffprobe);
    assert(pre_y + report.yt_dlp + ("\nffmpeg: "@ + report.ffmpeg + "\nffprobe: "@ + report.ffprobe) =~= dependency_summary(report));
    crate::text::lemma_contains_inside(pre_f, report.ffmpeg, "\nffprobe: "@ + report.ffprobe);
    assert(pre_f + report.ffmpeg + ("\nffprobe: "@ + report.ffprobe) =~= dependency_summary(report));
    crate::text::lemma_contains_inside(pre_p, report.ffprobe, Seq::empty());
    assert(pre_p + report.ffprobe + Seq::<char>::empty() =~= dependency_summary(report));
}

/// The update check decides the first screen: a newer release opens the
/// update screen and waits; otherwise (or when the user skips the update)
/// the tools are looked up on the main screen. The project link opens the
/// project's GitHub page.
pub proof fn law_update_check_decides_first_screen(s: PullytAppView, release: ReleaseInfoView)
    ensures
        app_update(s, MessageView::CheckUpdatesComplete(UpdateStatusView::UpdateAvailable(release))).1 == EffectView::Nothing,
        !app_update(s, MessageView::CheckUpdatesComplete(UpdateStatusView::UpdateAvailable(release))).0.busy,
        app_update(s, MessageView::CheckUpdatesComplete(UpdateStatusView::UpToDate)).1 == EffectView::BootstrapDependencies,
        app_update(s, MessageView::CheckUpdatesComplete(UpdateStatusView::UpToDate)).0.phase == AppPhaseView::Main,
        app_update(s, MessageView::SkipUpdateAndContinue).1 == EffectView::BootstrapDependencies,
        app_update(s, MessageView::SkipUpdateAndContinue).0.phase == AppPhaseView::Main,
        app_update(s, MessageView::OpenGithub).1 == EffectView::OpenLink("https://github.com/pausegarra/pullyt"@),
{
}

/// The window opens checking for updates, busy, with no link, for a video
/// with audio in the compatible preset at the best video and audio quality.
pub proof fn law_window_opens_with_defaults(version: Seq<char>)
    ensures
        initial_state(version).phase == AppPhaseView::CheckingUpdates,
        initial_state(version).busy,
        initial_state(version).url.len() == 0,
        initial_state(version).mode == DownloadMode::VideoWithAudio,
        initial_state(version).preset == DownloadPreset::Compatibility,
        initial_state(version).video_quality == VideoQuality::Best,
        initial_state(version).audio_quality == AudioQuality::Best,
        initial_state(version).current_version == version,
        download_job_of(initial_state(version)) is None,
{
}

} // verus!
