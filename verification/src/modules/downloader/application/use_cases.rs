use std::sync::Arc;

use vstd::prelude::*;

use crate::modules::downloader::domain::entities::{
    DownloadProgress, DownloadRequest, DownloadRequestView, ReleaseInfo, ReleaseInfoView,
    UpdateStatus, UpdateStatusView,
};
use crate::modules::downloader::domain::errors::{DownloaderError, DownloaderErrorView};
use crate::modules::downloader::domain::ports::{
    gives_download, gives_ffmpeg, gives_ffprobe, gives_output_file, gives_release, gives_title,
    gives_yt_dlp, DependencyPort, DownloadPort, ReleasePort, SaveDialogPort,
};
use crate::modules::downloader::domain::value_objects::{is_youtube_link, YoutubeUrl};
use crate::modules::downloader::domain::version::{is_newer, is_newer_version};
use crate::text::trim;

verus! {

/// Where each external tool was found.
#[derive(Debug)]
pub struct DependencyReport {
    pub yt_dlp: String,
    pub ffmpeg: String,
    pub ffprobe: String,
}

/// Mathematical model of a `DependencyReport`.
pub struct DependencyReportView {
    pub yt_dlp: Seq<char>,
    pub ffmpeg: Seq<char>,
    pub ffprobe: Seq<char>,
}

impl View for DependencyReport {
    type V = DependencyReportView;

    open spec fn view(&self) -> DependencyReportView {
        DependencyReportView { yt_dlp: self.yt_dlp@, ffmpeg: self.ffmpeg@, ffprobe: self.ffprobe@ }
    }
}

impl Clone for DependencyReport {
    fn clone(&self) -> (r: Self)
        ensures
            r@ == self@,
    {
        DependencyReport {
            yt_dlp: self.yt_dlp.clone(),
            ffmpeg: self.ffmpeg.clone(),
            ffprobe: self.ffprobe.clone(),
        }
    }
}

/// `e` is the error of the first tool lookup that failed: that of `yt-dlp`;
/// or that of `ffmpeg`, `yt-dlp` having been found; or that of `ffprobe`, both
/// having been found.
pub open spec fn first_lookup_error<D: DependencyPort>(port: &D, e: DownloaderError) -> bool {
    ||| gives_yt_dlp(port, Err(e))
    ||| (exists|y: String| gives_yt_dlp(port, Ok(y))) && gives_ffmpeg(port, Err(e))
    ||| (exists|y: String| gives_yt_dlp(port, Ok(y))) && (exists|f: String| gives_ffmpeg(port, Ok(f)))
        && gives_ffprobe(port, Err(e))
}

/// Makes sure `yt-dlp`, `ffmpeg` and `ffprobe` can be run, in that order,
/// stopping at the first that cannot.
pub struct BootstrapDependenciesUseCase<D: DependencyPort> {
    dependency_port: Arc<D>,
}

impl<D: DependencyPort> BootstrapDependenciesUseCase<D> {
    pub closed spec fn port(&self) -> Arc<D> {
        self.dependency_port
    }

    pub fn new(dependency_port: Arc<D>) -> (r: Self)
        ensures
            r.port() == dependency_port,
    {
        BootstrapDependenciesUseCase { dependency_port }
    }

    /// The first tool that cannot be had ends the run with its error,
    /// unchanged; when all three can, the report holds what each lookup on
    /// this use case's port gave.
    pub fn execute(&self) -> (r: Result<DependencyReport, DownloaderError>)
        ensures
            r matches Ok(rep) ==> gives_yt_dlp(&*self.port(), Ok(rep.yt_dlp)) && gives_ffmpeg(
                &*self.port(),
                Ok(rep.ffmpeg),
            ) && gives_ffprobe(&*self.port(), Ok(rep.ffprobe)),
            r matches Err(e) ==> first_lookup_error(&*self.port(), e),
    {
        // Calling the port's methods as function values lets Verus record
        // (`call_ensures`) which answer each call gave.
        let port: &D = &*self.dependency_port;
        let ensure_yt_dlp = D::ensure_yt_dlp;
        let ensure_ffmpeg = D::ensure_ffmpeg;
        let ensure_ffprobe = D::ensure_ffprobe;
        let yt_dlp = match ensure_yt_dlp(port) {
            Ok(p) => p,
            Err(e) => return Err(e),
        };
        assert(gives_yt_dlp(port, Ok(yt_dlp)));
        let ffmpeg = match ensure_ffmpeg(port) {
            Ok(p) => p,
            Err(e) => return Err(e),
        };
        assert(gives_ffmpeg(port, Ok(ffmpeg)));
        let ffprobe = match ensure_ffprobe(port) {
            Ok(p) => p,
            Err(e) => return Err(e),
        };
        Ok(DependencyReport { yt_dlp, ffmpeg, ffprobe })
    }
}

/// The request with its link checked and trimmed.
pub open spec fn prepared_request(r: DownloadRequestView) -> DownloadRequestView {
    DownloadRequestView { url: trim(r.url), ..r }
}

/// Checks the request's link; on success the request carries the trimmed link
/// and is otherwise unchanged.
pub fn prepare_request(request: DownloadRequest) -> (r: Result<DownloadRequest, DownloaderError>)
    ensures
        r is Ok <==> is_youtube_link(trim(request@.url)),
        r matches Ok(q) ==> q@ == prepared_request(request@),
        r matches Err(e) ==> e is InvalidUrl,
{
    let mut request = request;
    match YoutubeUrl::parse(request.url.as_str()) {
        Ok(valid) => {
            request.url = crate::text::owned(valid.as_str());
            Ok(request)
        },
        Err(e) => Err(e),
    }
}

/// The title to suggest a file name from: the one found, or none at all.
pub fn title_or_default(found: Result<String, DownloaderError>) -> (t: String)
    ensures
        match found {
            Ok(s) => t@ == s@,
            Err(_) => t@ == Seq::<char>::empty(),
        },
{
    match found {
        Ok(s) => s,
        Err(_) => String::new(),
    }
}

/// The request with the chosen output file, or `SaveCanceled` when none was chosen.
pub fn with_output_path(request: DownloadRequest, chosen: Option<String>) -> (r: Result<
    DownloadRequest,
    DownloaderError,
>)
    ensures
        match chosen {
            Some(p) => r matches Ok(q) && q@ == DownloadRequestView { output_path: p@, ..request@ },
            None => r matches Err(e) && e is SaveCanceled,
        },
{
    match chosen {
        Some(p) => {
            let mut request = request;
            request.output_path = p;
            Ok(request)
        },
        None => Err(DownloaderError::SaveCanceled),
    }
}

/// The progress reported before anything else happens.
pub fn checking_dependencies_progress() -> (p: DownloadProgress)
    ensures
        p.per_mille == 0,
        p.message@ == "Checking dependencies"@,
{
    DownloadProgress { per_mille: 0, message: "Checking dependencies".to_owned() }
}

/// The title a found title gives: the title, or none at all.
pub open spec fn title_text(found: Result<String, DownloaderError>) -> Seq<char> {
    match found {
        Ok(t) => t@,
        Err(_) => Seq::empty(),
    }
}

/// How a download of the checked request `q` came to answer `r`, from the
/// answers its ports gave: the first tool lookup that failed, with its error;
/// or, all three tools found, the title was looked up for `q`'s link, the save
/// dialog was asked with `q`'s mode and preset and that title, and either it
/// was declined (`SaveCanceled`) or the download was run on `q` with the
/// chosen file and the path the `ffmpeg` lookup gave, and `r` is its answer.
pub open spec fn download_answered<D: DependencyPort, S: SaveDialogPort, P: DownloadPort, F: FnMut(
    DownloadProgress,
)>(deps: &D, dialog: &S, downloader: &P, q: DownloadRequestView, r: Result<(), DownloaderError>) -> bool {
    ||| (r matches Err(e) && first_lookup_error(deps, e))
    ||| exists|y: String, f: String, p: String, t: Result<String, DownloaderError>, c: Option<String>|
        {
            &&& gives_yt_dlp(deps, Ok(y))
            &&& gives_ffmpeg(deps, Ok(f))
            &&& gives_ffprobe(deps, Ok(p))
            &&& gives_title(downloader, q.url, t)
            &&& gives_output_file(dialog, q.mode, q.preset, title_text(t), c)
            &&& match c {
                None => r matches Err(e) && e is SaveCanceled,
                Some(out) => gives_download::<P, F>(
                    downloader,
                    DownloadRequestView { output_path: out@, ..q },
                    f@,
                    r,
                ),
            }
        }
}

/// Checks a link, makes sure the tools exist, asks where to save, and downloads.
pub struct DownloadMediaUseCase<D: DependencyPort, S: SaveDialogPort, P: DownloadPort> {
    dependency_port: Arc<D>,
    save_dialog_port: Arc<S>,
    download_port: Arc<P>,
}

impl<D: DependencyPort, S: SaveDialogPort, P: DownloadPort> DownloadMediaUseCase<D, S, P> {
    pub closed spec fn ports(&self) -> (Arc<D>, Arc<S>, Arc<P>) {
        (self.dependency_port, self.save_dialog_port, self.download_port)
    }

    pub fn new(dependency_port: Arc<D>, save_dialog_port: Arc<S>, download_port: Arc<P>) -> (r:
        Self)
        ensures
            r.ports() == (dependency_port, save_dialog_port, download_port),
    {
        DownloadMediaUseCase { dependency_port, save_dialog_port, download_port }
    }

    /// A link that is not a YouTube video link is refused with `InvalidUrl`
    /// before anything else is done. Otherwise the link is trimmed, progress
    /// "Checking dependencies" is reported, and the answer is made from what
    /// the ports gave, as `download_answered` says.
    pub fn execute<F: FnMut(DownloadProgress)>(
        &self,
        request: DownloadRequest,
        on_progress: &mut F,
    ) -> (r: Result<(), DownloaderError>)
        requires
            forall|p: DownloadProgress| call_requires(*old(on_progress), (p,)),
        ensures
            !is_youtube_link(trim(request@.url)) ==> (r matches Err(e) && e is InvalidUrl),
            !is_youtube_link(trim(request@.url)) ==> *final(on_progress) == *old(on_progress),
            is_youtube_link(trim(request@.url)) ==> exists|p: DownloadProgress|
                p.per_mille == 0 && p.message@ == "Checking dependencies"@ && call_ensures(*old(on_progress), (p,), ()),
            is_youtube_link(trim(request@.url)) ==> download_answered::<D, S, P, F>(
                &*self.ports().0,
                &*self.ports().1,
                &*self.ports().2,
                prepared_request(request@),
                r,
            ),
    {
        let request = prepare_request(request)?;
        let ghost q = request@;
        let first = checking_dependencies_progress();
        let ghost first_report = first;
        on_progress(first);
        assert(call_ensures(*old(on_progress), (first_report,), ()));
        // The ports' methods are called as function values, so that Verus
        // records (`call_ensures`) which answer each call gave.
        let deps: &D = &*self.dependency_port;
        let dialog: &S = &*self.save_dialog_port;
        let downloader: &P = &*self.download_port;
        let ensure_yt_dlp = D::ensure_yt_dlp;
        let ensure_ffmpeg = D::ensure_ffmpeg;
        let ensure_ffprobe = D::ensure_ffprobe;
        let get_title = P::get_title;
        let choose_output_file = S::choose_output_file;
        let run_download = P::run_download::<F>;
        let y = match ensure_yt_dlp(deps) {
            Ok(y) => y,
            Err(e) => return Err(e),
        };
        assert(gives_yt_dlp(deps, Ok(y)));
        let ffmpeg_path = match ensure_ffmpeg(deps) {
            Ok(f) => f,
            Err(e) => return Err(e),
        };
        assert(gives_ffmpeg(deps, Ok(ffmpeg_path)));
        let p = match ensure_ffprobe(deps) {
            Ok(p) => p,
            Err(e) => return Err(e),
        };
        assert(gives_ffprobe(deps, Ok(p)));
        let found = get_title(downloader, request.url.as_str());
        let ghost t = found;
        assert(gives_title(downloader, q.url, t));
        let title = title_or_default(found);
        let chosen = choose_output_file(dialog, request.mode, request.preset, title.as_str());
        let ghost c = chosen;
        assert(gives_output_file(dialog, q.mode, q.preset, title_text(t), c));
        let request = match with_output_path(request, chosen) {
            Ok(with_file) => with_file,
            Err(e) => {
                assert(download_answered::<D, S, P, F>(deps, dialog, downloader, q, Err(e)));
                return Err(e);
            },
        };
        let r = run_download(downloader, &request, ffmpeg_path.as_str(), on_progress);
        assert(gives_download::<P, F>(downloader, request@, ffmpeg_path@, r));
        r
    }
}

/// What the update check answers, given what the release lookup returned
/// (`None` when it failed).
pub open spec fn update_status_for(current: Seq<char>, fetched: Option<ReleaseInfoView>) -> UpdateStatusView {
    match fetched {
        Some(info) => if is_newer(info.version, current) {
            UpdateStatusView::UpdateAvailable(info)
        } else {
            UpdateStatusView::UpToDate
        },
        None => UpdateStatusView::UpToDate,
    }
}

pub open spec fn fetched_view(fetched: Result<ReleaseInfo, DownloaderError>) -> Option<ReleaseInfoView> {
    match fetched {
        Ok(info) => Some(info@),
        Err(_) => None,
    }
}

/// An update is offered exactly when the release found is newer than the
/// running version; a failed lookup counts as up to date.
pub fn update_status_from(current_version: &str, fetched: Result<ReleaseInfo, DownloaderError>) -> (s: UpdateStatus)
    ensures
        s@ == update_status_for(current_version@, fetched_view(fetched)),
{
    match fetched {
        Ok(info) => {
            if is_newer_version(info.version.as_str(), current_version) {
                UpdateStatus::UpdateAvailable(info)
            } else {
                UpdateStatus::UpToDate
            }
        },
        Err(_) => UpdateStatus::UpToDate,
    }
}

/// Compares the newest published release with the running version.
pub struct CheckForUpdatesUseCase<R: ReleasePort> {
    release_port: Arc<R>,
    current_version: String,
}

impl<R: ReleasePort> CheckForUpdatesUseCase<R> {
    pub closed spec fn port(&self) -> Arc<R> {
        self.release_port
    }

    pub closed spec fn current_version(&self) -> Seq<char> {
        self.current_version@
    }

    pub fn new(release_port: Arc<R>, current_version: String) -> (r: Self)
        ensures
            r.port() == release_port,
            r.current_version() == current_version@,
    {
        CheckForUpdatesUseCase { release_port, current_version }
    }

    /// The answer is the one `update_status_for` gives for what the lookup on
    /// this use case's port returned: in particular an update is offered only
    /// for a newer release.
    pub fn execute(&self) -> (s: UpdateStatus)
        ensures
            exists|a: Result<ReleaseInfo, DownloaderError>|
                gives_release(&*self.port(), a) && s@ == update_status_for(
                    self.current_version(),
                    fetched_view(a),
                ),
            s@ matches UpdateStatusView::UpdateAvailable(info) ==> is_newer(
                info.version,
                self.current_version(),
            ),
    {
        // Called as a function value, so that Verus records the answer given.
        let fetch_latest_release = R::fetch_latest_release;
        let fetched = fetch_latest_release(&*self.release_port);
        let ghost a = fetched;
        assert(gives_release(&*self.port(), a));
        update_status_from(self.current_version.as_str(), fetched)
    }
}

} // verus!
