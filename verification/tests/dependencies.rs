use pullyt::modules::downloader::domain::errors::DownloaderError;
use pullyt::modules::downloader::infrastructure::dependencies::{
    download_failure, evermeet_zip_url, parse_evermeet_download_url, ffmpeg_source, home_dir, join, linux_ffmpeg_arch,
    local_bin_dir, local_ffmpeg_license_path, local_ffmpeg_path, local_ffmpeg_readme_path,
    local_ffprobe_path, local_yt_dlp_path, make_executable_command, tool_command, version_flag,
    yt_dlp_command, yt_dlp_download_command, yt_dlp_install_outcome, FfmpegSource, Platform, Tool,
};

fn s(v: &str) -> Option<String> {
    Some(v.to_string())
}

#[test]
fn home_directory_choice() {
    assert_eq!(home_dir(Platform::Windows, s("C:\\Users\\a"), s("D:"), s("\\x"), s("/h")), "C:\\Users\\a");
    assert_eq!(home_dir(Platform::Windows, None, s("D:"), s("\\x"), s("/h")), "D:\\x");
    assert_eq!(home_dir(Platform::Windows, None, s("D:"), None, s("/h")), "/h");
    assert_eq!(home_dir(Platform::Linux, s("C:\\Users\\a"), None, None, s("/home/a")), "/home/a");
    assert_eq!(home_dir(Platform::MacOs, None, None, None, None), ".");
}

#[test]
fn joins_paths() {
    assert_eq!(join(Platform::Linux, "/home/a", "x"), "/home/a/x");
    assert_eq!(join(Platform::Linux, "/home/a/", "x"), "/home/a/x");
    assert_eq!(join(Platform::Linux, "", "x"), "x");
    assert_eq!(join(Platform::Windows, "C:\\Users\\a", "x"), "C:\\Users\\a\\x");
    assert_eq!(join(Platform::Windows, "C:/Users/a/", "x"), "C:/Users/a/x");
}

#[test]
fn joins_below_a_bare_drive_without_separator() {
    assert_eq!(join(Platform::Windows, "C:", ".pullyt"), "C:.pullyt");
    assert_eq!(join(Platform::Windows, "\\\\?\\D:", "x"), "\\\\?\\D:\\x");
    assert_eq!(join(Platform::Windows, "1:", "x"), "1:\\x");
    assert_eq!(join(Platform::Linux, "C:", "x"), "C:/x");
    assert_eq!(local_yt_dlp_path(Platform::Windows, "C:"), "C:.pullyt\\yt-dlp.exe");
}

#[test]
fn tool_paths() {
    assert_eq!(local_bin_dir(Platform::Linux, "/home/a"), "/home/a/.pullyt");
    assert_eq!(local_yt_dlp_path(Platform::Linux, "/home/a"), "/home/a/.pullyt/yt-dlp");
    assert_eq!(local_ffmpeg_path(Platform::MacOs, "/Users/a"), "/Users/a/.pullyt/ffmpeg");
    assert_eq!(local_ffprobe_path(Platform::Windows, "C:\\U"), "C:\\U\\.pullyt\\ffprobe.exe");
    assert_eq!(local_yt_dlp_path(Platform::Windows, "C:\\U"), "C:\\U\\.pullyt\\yt-dlp.exe");
    assert_eq!(local_ffmpeg_license_path(Platform::Linux, "/h"), "/h/.pullyt/ffmpeg.LICENSE");
    assert_eq!(local_ffmpeg_readme_path(Platform::Linux, "/h"), "/h/.pullyt/ffmpeg.README");
}

#[test]
fn commands_and_flags() {
    assert_eq!(tool_command(Tool::YtDlp), "yt-dlp");
    assert_eq!(version_flag(Tool::YtDlp), "--version");
    assert_eq!(version_flag(Tool::Ffprobe), "-version");
    assert_eq!(yt_dlp_command(true, "/h/.pullyt/yt-dlp"), "yt-dlp");
    assert_eq!(yt_dlp_command(false, "/h/.pullyt/yt-dlp"), "/h/.pullyt/yt-dlp");
}

#[test]
fn yt_dlp_install_commands() {
    let unix = yt_dlp_download_command(Platform::Linux, "/h/y");
    assert_eq!(unix.program, "curl");
    assert_eq!(
        unix.args,
        vec!["-L", "https://github.com/yt-dlp/yt-dlp/releases/latest/download/yt-dlp", "-o", "/h/y"]
    );
    let win = yt_dlp_download_command(Platform::Windows, "C:\\y.exe");
    assert_eq!(win.program, "powershell");
    assert_eq!(
        win.args,
        vec![
            "-Command",
            "iwr https://github.com/yt-dlp/yt-dlp/releases/latest/download/yt-dlp.exe -OutFile 'C:\\y.exe'"
        ]
    );
    let chmod = make_executable_command(Platform::MacOs, "/h/y").unwrap();
    assert_eq!((chmod.program.as_str(), chmod.args), ("chmod", vec!["+x".to_string(), "/h/y".to_string()]));
    assert!(make_executable_command(Platform::Windows, "C:\\y.exe").is_none());
}

#[test]
fn yt_dlp_install_outcomes() {
    assert!(yt_dlp_install_outcome(Ok(true)).is_ok());
    assert!(matches!(yt_dlp_install_outcome(Ok(false)), Err(DownloaderError::YtDlpUnavailable)));
    assert!(matches!(yt_dlp_install_outcome(Err("no curl".to_string())),
        Err(DownloaderError::ProcessFailed(m)) if m == "no curl"));
}

#[test]
fn ffmpeg_sources() {
    assert_eq!(linux_ffmpeg_arch("x86_64"), "amd64");
    assert_eq!(linux_ffmpeg_arch("aarch64"), "arm64");
    assert_eq!(linux_ffmpeg_arch("x86"), "i686");
    assert_eq!(linux_ffmpeg_arch("i686"), "i686");
    assert_eq!(linux_ffmpeg_arch("arm"), "armhf");
    assert_eq!(linux_ffmpeg_arch("riscv64"), "amd64");
    match ffmpeg_source(Platform::Linux, "aarch64") {
        FfmpegSource::LinuxTarXz { url } => assert_eq!(
            url,
            "https://johnvansickle.com/ffmpeg/releases/ffmpeg-release-arm64-static.tar.xz"
        ),
        other => panic!("unexpected {:?}", other),
    }
    assert!(matches!(ffmpeg_source(Platform::Windows, "x86_64"), FfmpegSource::WindowsZip { .. }));
    assert!(matches!(ffmpeg_source(Platform::MacOs, "x86_64"), FfmpegSource::MacIntel { .. }));
    assert!(matches!(ffmpeg_source(Platform::MacOs, "aarch64"), FfmpegSource::MacArm { .. }));
    assert!(matches!(ffmpeg_source(Platform::Other, "x86_64"), FfmpegSource::Unavailable));
}

#[test]
fn download_and_evermeet_errors() {
    assert!(matches!(download_failure("https://x", "timeout"),
        DownloaderError::ProcessFailed(m) if m == "download failed (https://x): timeout"));
    assert_eq!(evermeet_zip_url(Ok(s("https://z"))).unwrap(), "https://z");
    assert!(matches!(evermeet_zip_url(Ok(None)),
        Err(DownloaderError::ProcessFailed(m)) if m == "invalid evermeet JSON payload"));
    assert!(matches!(evermeet_zip_url(Err("EOF".to_string())),
        Err(DownloaderError::ProcessFailed(m)) if m == "EOF"));
}

#[test]
fn evermeet_documents() {
    let doc = br#"{"name":"ffmpeg","download":{"7z":{"url":"https://a.7z"},"zip":{"url":"https://evermeet.cx/ffmpeg/ffmpeg-6.1.1.zip","size":1}}}"#;
    assert_eq!(parse_evermeet_download_url(doc).unwrap(), "https://evermeet.cx/ffmpeg/ffmpeg-6.1.1.zip");
    assert!(matches!(parse_evermeet_download_url(br#"{"download":{"zip":{"url":5}}}"#),
        Err(DownloaderError::ProcessFailed(m)) if m == "invalid evermeet JSON payload"));
    assert!(matches!(parse_evermeet_download_url(br#"{"download":[1]}"#),
        Err(DownloaderError::ProcessFailed(m)) if m == "invalid evermeet JSON payload"));
    assert!(matches!(parse_evermeet_download_url(b"not json"),
        Err(DownloaderError::ProcessFailed(m)) if m.starts_with("expected")));
}
