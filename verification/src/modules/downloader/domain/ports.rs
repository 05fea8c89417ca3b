//! What the use cases need from the outside world. The application supplies
//! the implementations; nothing here promises what they return. The `gives_*`
//! predicates name the answers an implementation may give to a call, so that
//! a use case can say which answer its result was made from.
use vstd::prelude::*;

use super::entities::{
    DownloadMode, DownloadPreset, DownloadProgress, DownloadRequest, DownloadRequestView, ReleaseInfo,
};
use super::errors::DownloaderError;

verus! {

/// Finds (installing when needed) the external tools a download runs.
pub trait DependencyPort: Send + Sync {
    fn ensure_yt_dlp(&self) -> Result<String, DownloaderError>;

    fn ensure_ffmpeg(&self) -> Result<String, DownloaderError>;

    fn ensure_ffprobe(&self) -> Result<String, DownloaderError>;
}

/// Asks the user where to save a download; `None` when the user declines.
pub trait SaveDialogPort: Send + Sync {
    fn choose_output_file(&self, mode: DownloadMode, preset: DownloadPreset, title: &str) -> Option<
        String,
    >;
}

/// Runs a download, reporting progress, and looks up a video's title.
pub trait DownloadPort: Send + Sync {
    fn run_download<F: FnMut(DownloadProgress)>(
        &self,
        request: &DownloadRequest,
        ffmpeg_path: &str,
        on_progress: &mut F,
    ) -> Result<(), DownloaderError>;

    fn get_title(&self, url: &str) -> Result<String, DownloaderError>;
}

/// Looks up the newest published release.
pub trait ReleasePort: Send + Sync {
    fn fetch_latest_release(&self) -> Result<ReleaseInfo, DownloaderError>;
}

/// `a` is an answer `port.ensure_yt_dlp()` may give.
pub open spec fn gives_yt_dlp<D: DependencyPort>(port: &D, a: Result<String, DownloaderError>) -> bool {
    call_ensures(D::ensure_yt_dlp, (port,), a)
}

/// `a` is an answer `port.ensure_ffmpeg()` may give.
pub open spec fn gives_ffmpeg<D: DependencyPort>(port: &D, a: Result<String, DownloaderError>) -> bool {
    call_ensures(D::ensure_ffmpeg, (port,), a)
}

/// `a` is an answer `port.ensure_ffprobe()` may give.
pub open spec fn gives_ffprobe<D: DependencyPort>(port: &D, a: Result<String, DownloaderError>) -> bool {
    call_ensures(D::ensure_ffprobe, (port,), a)
}

/// `a` is an answer the save dialog may give when asked with these arguments.
pub open spec fn gives_output_file<S: SaveDialogPort>(
    port: &S,
    mode: DownloadMode,
    preset: DownloadPreset,
    title: Seq<char>,
    a: Option<String>,
) -> bool {
    exists|t: &str| t@ == title && call_ensures(S::choose_output_file, (port, mode, preset, t), a)
}

/// `a` is an answer `port.get_title(url)` may give.
pub open spec fn gives_title<P: DownloadPort>(port: &P, url: Seq<char>, a: Result<String, DownloaderError>) -> bool {
    exists|u: &str| u@ == url && call_ensures(P::get_title, (port, u), a)
}

/// `a` is an answer `port.run_download` may give for this request and `ffmpeg` path.
pub open spec fn gives_download<P: DownloadPort, F: FnMut(DownloadProgress)>(
    port: &P,
    request: DownloadRequestView,
    ffmpeg_path: Seq<char>,
    a: Result<(), DownloaderError>,
) -> bool {
    exists|q: &DownloadRequest, f: &str, cb: &mut F|
        q@ == request && f@ == ffmpeg_path && call_ensures(P::run_download::<F>, (port, q, f, cb), a)
}

/// `a` is an answer `port.fetch_latest_release()` may give.
pub open spec fn gives_release<R: ReleasePort>(port: &R, a: Result<ReleaseInfo, DownloaderError>) -> bool {
    call_ensures(R::fetch_latest_release, (port,), a)
}

} // verus!
