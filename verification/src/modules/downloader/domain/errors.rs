use vstd::prelude::*;

verus! {

/// Everything that can go wrong while preparing or running a download.
#[derive(Debug)]
pub enum DownloaderError {
    InvalidUrl,
    YtDlpUnavailable,
    FfmpegUnavailable,
    FfprobeUnavailable,
    SaveCanceled,
    ProcessFailed(String),
    ReleaseCheckFailed(String),
}

/// Mathematical model of a `DownloaderError`.
pub enum DownloaderErrorView {
    InvalidUrl,
    YtDlpUnavailable,
    FfmpegUnavailable,
    FfprobeUnavailable,
    SaveCanceled,
    ProcessFailed(Seq<char>),
    ReleaseCheckFailed(Seq<char>),
}

impl View for DownloaderError {
    type V = DownloaderErrorView;

    open spec fn view(&self) -> DownloaderErrorView {
        match self {
            DownloaderError::InvalidUrl => DownloaderErrorView::InvalidUrl,
            DownloaderError::YtDlpUnavailable => DownloaderErrorView::YtDlpUnavailable,
            DownloaderError::FfmpegUnavailable => DownloaderErrorView::FfmpegUnavailable,
            DownloaderError::FfprobeUnavailable => DownloaderErrorView::FfprobeUnavailable,
            DownloaderError::SaveCanceled => DownloaderErrorView::SaveCanceled,
            DownloaderError::ProcessFailed(m) => DownloaderErrorView::ProcessFailed(m@),
            DownloaderError::ReleaseCheckFailed(m) => DownloaderErrorView::ReleaseCheckFailed(m@),
        }
    }
}

impl DownloaderErrorView {
    /// The text shown to the user for this error.
    pub open spec fn message(self) -> Seq<char> {
        match self {
            DownloaderErrorView::InvalidUrl => "invalid YouTube URL"@,
            DownloaderErrorView::YtDlpUnavailable => "yt-dlp not available"@,
            DownloaderErrorView::FfmpegUnavailable => "ffmpeg not available"@,
            DownloaderErrorView::FfprobeUnavailable => "ffprobe not available"@,
            DownloaderErrorView::SaveCanceled => "download canceled"@,
            DownloaderErrorView::ProcessFailed(m) => "process failed: "@ + m,
            DownloaderErrorView::ReleaseCheckFailed(m) => "release check failed: "@ + m,
        }
    }
}

impl DownloaderError {
    /// The text shown to the user for this error.
    pub fn message(&self) -> (r: String)
        ensures
            r@ == self@.message(),
    {
        match self {
            DownloaderError::InvalidUrl => "invalid YouTube URL".to_owned(),
            DownloaderError::YtDlpUnavailable => "yt-dlp not available".to_owned(),
            DownloaderError::FfmpegUnavailable => "ffmpeg not available".to_owned(),
            DownloaderError::FfprobeUnavailable => "ffprobe not available".to_owned(),
            DownloaderError::SaveCanceled => "download canceled".to_owned(),
            DownloaderError::ProcessFailed(m) => crate::text::concat("process failed: ", m.as_str()),
            DownloaderError::ReleaseCheckFailed(m) => crate::text::concat(
                "release check failed: ",
                m.as_str(),
            ),
        }
    }

    /// Same as `message`; named as callers of a displayable error expect.
    pub fn to_string(&self) -> (r: String)
        ensures
            r@ == self@.message(),
    {
        self.message()
    }
}

impl Clone for DownloaderError {
    fn clone(&self) -> (r: Self)
        ensures
            r@ == self@,
    {
        match self {
            DownloaderError::InvalidUrl => DownloaderError::InvalidUrl,
            DownloaderError::YtDlpUnavailable => DownloaderError::YtDlpUnavailable,
            DownloaderError::FfmpegUnavailable => DownloaderError::FfmpegUnavailable,
            DownloaderError::FfprobeUnavailable => DownloaderError::FfprobeUnavailable,
            DownloaderError::SaveCanceled => DownloaderError::SaveCanceled,
            DownloaderError::ProcessFailed(m) => DownloaderError::ProcessFailed(m.clone()),
            DownloaderError::ReleaseCheckFailed(m) => DownloaderError::ReleaseCheckFailed(
                m.clone(),
            ),
        }
    }
}

/// Each error reads as its fixed sentence; a failed process or release check
/// reads as its kind followed by the detail it carries, so the detail is
/// always shown in full at the end.
pub proof fn law_error_messages(detail: Seq<char>)
    ensures
        DownloaderErrorView::InvalidUrl.message() == "invalid YouTube URL"@,
        DownloaderErrorView::YtDlpUnavailable.message() == "yt-dlp not available"@,
        DownloaderErrorView::FfmpegUnavailable.message() == "ffmpeg not available"@,
        DownloaderErrorView::FfprobeUnavailable.message() == "ffprobe not available"@,
        DownloaderErrorView::SaveCanceled.message() == "download canceled"@,
        DownloaderErrorView::ProcessFailed(detail).message() == "process failed: "@ + detail,
        DownloaderErrorView::ReleaseCheckFailed(detail).message() == "release check failed: "@ + detail,
        crate::text::ends_with(DownloaderErrorView::ProcessFailed(detail).message(), detail),
        crate::text::ends_with(DownloaderErrorView::ReleaseCheckFailed(detail).message(), detail),
{
    crate::text::lemma_concat_ends("process failed: "@, detail);
    crate::text::lemma_concat_ends("release check failed: "@, detail);
}

} // verus!
