//! Where the external tools live and how they are fetched: the home
//! directory, the private tool directory, the commands that install
//! `yt-dlp`, and the archives `ffmpeg` comes in.
use vstd::prelude::*;

use crate::modules::downloader::domain::errors::{DownloaderError, DownloaderErrorView};

verus! {

/// The operating system the application runs on.
#[derive(Debug, Clone, Copy, PartialEq, Eq, Structural)]
pub enum Platform {
    Windows,
    Linux,
    MacOs,
    Other,
}

/// The tools a download needs.
#[derive(Debug, Clone, Copy, PartialEq, Eq, Structural)]
pub enum Tool {
    YtDlp,
    Ffmpeg,
    Ffprobe,
}

pub open spec fn opt_view(o: Option<String>) -> Option<Seq<char>> {
    match o {
        Some(s) => Some(s@),
        None => None,
    }
}

/// The user's home directory, from the environment: on Windows `USERPROFILE`,
/// else `HOMEDRIVE` followed by `HOMEPATH`; then `HOME`; else `.`.
pub open spec fn home_directory(
    platform: Platform,
    user_profile: Option<Seq<char>>,
    home_drive: Option<Seq<char>>,
    home_path: Option<Seq<char>>,
    home: Option<Seq<char>>,
) -> Seq<char> {
    if platform == Platform::Windows && user_profile is Some {
        user_profile->0
    } else if platform == Platform::Windows && home_drive is Some && home_path is Some {
        home_drive->0 + home_path->0
    } else if home is Some {
        home->0
    } else {
        "."@
    }
}

pub fn home_dir(
    platform: Platform,
    user_profile: Option<String>,
    home_drive: Option<String>,
    home_path: Option<String>,
    home: Option<String>,
) -> (r: String)
    ensures
        r@ == home_directory(
            platform,
            opt_view(user_profile),
            opt_view(home_drive),
            opt_view(home_path),
            opt_view(home),
        ),
{
    if platform == Platform::Windows {
        if let Some(p) = user_profile {
            return p;
        }
        if let (Some(d), Some(p)) = (home_drive, home_path) {
            return crate::text::concat(d.as_str(), p.as_str());
        }
    }
    match home {
        Some(h) => h,
        None => ".".to_owned(),
    }
}

/// The home directory: on Windows `USERPROFILE` when set, else `HOMEDRIVE`
/// joined with `HOMEPATH` when both are set; then `HOME`; else the current
/// directory. Outside Windows the Windows variables are never looked at.
pub proof fn law_home_directory_choice(
    platform: Platform,
    user_profile: Option<Seq<char>>,
    home_drive: Option<Seq<char>>,
    home_path: Option<Seq<char>>,
    home: Option<Seq<char>>,
)
    ensures
        platform == Platform::Windows && user_profile is Some ==> home_directory(platform, user_profile, home_drive, home_path, home)
            == user_profile->0,
        platform == Platform::Windows && user_profile is None && home_drive is Some && home_path is Some
            ==> home_directory(platform, user_profile, home_drive, home_path, home) == home_drive->0 + home_path->0,
        platform != Platform::Windows && home is Some ==> home_directory(platform, user_profile, home_drive, home_path, home)
            == home->0,
        platform != Platform::Windows ==> home_directory(platform, user_profile, home_drive, home_path, home)
            == home_directory(platform, None, None, None, home),
        home is None && (platform != Platform::Windows || (user_profile is None && (home_drive is None || home_path is None)))
            ==> home_directory(platform, user_profile, home_drive, home_path, home) == "."@,
{
}

/// Whether `c` separates path components on `platform`.
pub open spec fn is_separator(platform: Platform, c: char) -> bool {
    c == '/' || (platform == Platform::Windows && c == '\\')
}

/// The separator a path gets when one is added on `platform`.
pub open spec fn main_separator(platform: Platform) -> char {
    if platform == Platform::Windows {
        '\\'
    } else {
        '/'
    }
}

pub open spec fn is_ascii_letter(c: char) -> bool {
    ('a' <= c && c <= 'z') || ('A' <= c && c <= 'Z')
}

/// Whether `base` is nothing but a Windows drive: a letter and a colon (`C:`).
/// A verbatim drive (`\\?\C:`) is not one: it gets a separator.
pub open spec fn is_bare_drive(base: Seq<char>) -> bool {
    base.len() == 2 && is_ascii_letter(base[0]) && base[1] == ':'
}

/// `name` (a relative component) added below the directory `base`, as
/// `PathBuf::push` does on `platform`: a separator goes between them unless
/// `base` is empty, already ends with one, or (on Windows) is a bare drive, so
/// that `C:` and `.pullyt` give the drive-relative `C:.pullyt`.
pub open spec fn join_path(platform: Platform, base: Seq<char>, name: Seq<char>) -> Seq<char> {
    if base.len() == 0 {
        name
    } else if is_separator(platform, base.last()) || (platform == Platform::Windows && is_bare_drive(base)) {
        base + name
    } else {
        base.push(main_separator(platform)) + name
    }
}

fn ascii_letter(c: char) -> (b: bool)
    ensures
        b == is_ascii_letter(c),
{
    ('a' <= c && c <= 'z') || ('A' <= c && c <= 'Z')
}

fn bare_drive(v: &Vec<char>) -> (b: bool)
    ensures
        b == is_bare_drive(v@),
{
    v.len() == 2 && ascii_letter(v[0]) && v[1] == ':'
}

pub fn join(platform: Platform, base: &str, name: &str) -> (r: String)
    ensures
        r@ == join_path(platform, base@, name@),
{
    let v = crate::text::chars_of(base);
    if v.len() == 0 {
        return crate::text::owned(name);
    }
    let last = v[v.len() - 1];
    let mut r = crate::text::owned(base);
    let no_separator = last == '/' || (platform == Platform::Windows && (last == '\\' || bare_drive(&v)));
    if !no_separator {
        let sep = if platform == Platform::Windows { '\\' } else { '/' };
        crate::text::push_char(&mut r, sep);
    }
    r.append(name);
    r
}

/// A program's file name: with `.exe` on Windows.
pub open spec fn executable_name(platform: Platform, stem: Seq<char>) -> Seq<char> {
    if platform == Platform::Windows {
        stem + ".exe"@
    } else {
        stem
    }
}

pub open spec fn tool_stem(tool: Tool) -> Seq<char> {
    match tool {
        Tool::YtDlp => "yt-dlp"@,
        Tool::Ffmpeg => "ffmpeg"@,
        Tool::Ffprobe => "ffprobe"@,
    }
}

/// The command a tool is run by when it is installed system-wide.
pub fn tool_command(tool: Tool) -> (r: &'static str)
    ensures
        r@ == tool_stem(tool),
{
    match tool {
        Tool::YtDlp => "yt-dlp",
        Tool::Ffmpeg => "ffmpeg",
        Tool::Ffprobe => "ffprobe",
    }
}

/// The flag that makes a tool print its version: `--version` for `yt-dlp`,
/// `-version` for the `ffmpeg` tools.
pub open spec fn version_flag_of(tool: Tool) -> Seq<char> {
    match tool {
        Tool::YtDlp => "--version"@,
        _ => "-version"@,
    }
}

pub fn version_flag(tool: Tool) -> (r: &'static str)
    ensures
        r@ == version_flag_of(tool),
{
    match tool {
        Tool::YtDlp => "--version",
        _ => "-version",
    }
}

/// The private directory the application installs tools into.
pub open spec fn bin_dir_of(platform: Platform, home: Seq<char>) -> Seq<char> {
    join_path(platform, home, ".pullyt"@)
}

pub open spec fn tool_path_of(platform: Platform, home: Seq<char>, tool: Tool) -> Seq<char> {
    join_path(platform, bin_dir_of(platform, home), executable_name(platform, tool_stem(tool)))
}

proof fn lemma_join_extends(platform: Platform, base: Seq<char>, name: Seq<char>)
    requires
        base.len() > 0,
    ensures
        crate::text::starts_with(join_path(platform, base, name), base),
        join_path(platform, base, name).len() > base.len() || name.len() == 0,
{
    let j = join_path(platform, base, name);
    assert(j.subrange(0, base.len() as int) =~= base);
}

/// Every tool the application installs, and the license and read-me that come
/// with `ffmpeg`, are kept inside the private directory `.pullyt` of the home
/// directory.
pub proof fn law_tools_live_in_private_dir(platform: Platform, home: Seq<char>, tool: Tool)
    ensures
        crate::text::starts_with(bin_dir_of(platform, home), home),
        crate::text::starts_with(tool_path_of(platform, home, tool), bin_dir_of(platform, home)),
        crate::text::starts_with(
            join_path(platform, bin_dir_of(platform, home), "ffmpeg.LICENSE"@),
            bin_dir_of(platform, home),
        ),
        crate::text::starts_with(
            join_path(platform, bin_dir_of(platform, home), "ffmpeg.README"@),
            bin_dir_of(platform, home),
        ),
{
    reveal_strlit(".pullyt");
    let dir = bin_dir_of(platform, home);
    if home.len() > 0 {
        lemma_join_extends(platform, home, ".pullyt"@);
    } else {
        assert(home =~= dir.subrange(0, 0));
    }
    assert(dir.len() > 0);
    lemma_join_extends(platform, dir, executable_name(platform, tool_stem(tool)));
    lemma_join_extends(platform, dir, "ffmpeg.LICENSE"@);
    lemma_join_extends(platform, dir, "ffmpeg.README"@);
}

pub fn local_bin_dir(platform: Platform, home: &str) -> (r: String)
    ensures
        r@ == bin_dir_of(platform, home@),
{
    join(platform, home, ".pullyt")
}

fn executable_file_name(platform: Platform, tool: Tool) -> (r: String)
    ensures
        r@ == executable_name(platform, tool_stem(tool)),
{
    let stem = tool_command(tool);
    if platform == Platform::Windows {
        crate::text::concat(stem, ".exe")
    } else {
        crate::text::owned(stem)
    }
}

/// Where the application keeps its own copy of a tool.
pub fn local_tool_path(platform: Platform, home: &str, tool: Tool) -> (r: String)
    ensures
        r@ == tool_path_of(platform, home@, tool),
{
    let dir = local_bin_dir(platform, home);
    let name = executable_file_name(platform, tool);
    join(platform, dir.as_str(), name.as_str())
}

pub fn local_yt_dlp_path(platform: Platform, home: &str) -> (r: String)
    ensures
        r@ == tool_path_of(platform, home@, Tool::YtDlp),
{
    local_tool_path(platform, home, Tool::YtDlp)
}

pub fn local_ffmpeg_path(platform: Platform, home: &str) -> (r: String)
    ensures
        r@ == tool_path_of(platform, home@, Tool::Ffmpeg),
{
    local_tool_path(platform, home, Tool::Ffmpeg)
}

pub fn local_ffprobe_path(platform: Platform, home: &str) -> (r: String)
    ensures
        r@ == tool_path_of(platform, home@, Tool::Ffprobe),
{
    local_tool_path(platform, home, Tool::Ffprobe)
}

/// Where the license that comes with `ffmpeg` is kept.
pub fn local_ffmpeg_license_path(platform: Platform, home: &str) -> (r: String)
    ensures
        r@ == join_path(platform, bin_dir_of(platform, home@), "ffmpeg.LICENSE"@),
{
    let dir = local_bin_dir(platform, home);
    join(platform, dir.as_str(), "ffmpeg.LICENSE")
}

/// Where the read-me that comes with `ffmpeg` is kept.
pub fn local_ffmpeg_readme_path(platform: Platform, home: &str) -> (r: String)
    ensures
        r@ == join_path(platform, bin_dir_of(platform, home@), "ffmpeg.README"@),
{
    let dir = local_bin_dir(platform, home);
    join(platform, dir.as_str(), "ffmpeg.README")
}

/// The command `yt-dlp` is run by: the system one when it works, else the
/// application's own copy.
pub open spec fn command_choice(system_command_works: bool, local_path: Seq<char>) -> Seq<char> {
    if system_command_works {
        "yt-dlp"@
    } else {
        local_path
    }
}

pub fn yt_dlp_command(system_command_works: bool, local_path: &str) -> (r: String)
    ensures
        r@ == command_choice(system_command_works, local_path@),
{
    if system_command_works {
        "yt-dlp".to_owned()
    } else {
        crate::text::owned(local_path)
    }
}

/// A program and its arguments.
#[derive(Debug)]
pub struct CommandLine {
    pub program: String,
    pub args: Vec<String>,
}

pub struct CommandLineView {
    pub program: Seq<char>,
    pub args: Seq<Seq<char>>,
}

impl View for CommandLine {
    type V = CommandLineView;

    open spec fn view(&self) -> CommandLineView {
        CommandLineView { program: self.program@, args: self.args@.map_values(|s: String| s@) }
    }
}

pub open spec fn yt_dlp_release_url(platform: Platform) -> Seq<char> {
    if platform == Platform::Windows {
        "https://github.com/yt-dlp/yt-dlp/releases/latest/download/yt-dlp.exe"@
    } else {
        "https://github.com/yt-dlp/yt-dlp/releases/latest/download/yt-dlp"@
    }
}

/// The command that downloads `yt-dlp` to `target`: PowerShell's
/// `Invoke-WebRequest` on Windows, `curl` elsewhere.
pub open spec fn yt_dlp_download_command_of(platform: Platform, target: Seq<char>) -> CommandLineView {
    if platform == Platform::Windows {
        CommandLineView {
            program: "powershell"@,
            args: seq![
                "-Command"@,
                "iwr "@ + yt_dlp_release_url(platform) + " -OutFile '"@ + target + "'"@,
            ],
        }
    } else {
        CommandLineView {
            program: "curl"@,
            args: seq!["-L"@, yt_dlp_release_url(platform), "-o"@, target],
        }
    }
}

pub fn yt_dlp_download_command(platform: Platform, target: &str) -> (r: CommandLine)
    ensures
        r@ == yt_dlp_download_command_of(platform, target@),
{
    if platform == Platform::Windows {
        let mut script = crate::text::concat(
            "iwr ",
            "https://github.com/yt-dlp/yt-dlp/releases/latest/download/yt-dlp.exe",
        );
        script.append(" -OutFile '");
        script.append(target);
        script.append("'");
        let args = vec!["-Command".to_owned(), script];
        let r = CommandLine { program: "powershell".to_owned(), args };
        assert(r@.args =~= yt_dlp_download_command_of(platform, target@).args);
        r
    } else {
        let args = vec![
            "-L".to_owned(),
            "https://github.com/yt-dlp/yt-dlp/releases/latest/download/yt-dlp".to_owned(),
            "-o".to_owned(),
            crate::text::owned(target),
        ];
        let r = CommandLine { program: "curl".to_owned(), args };
        assert(r@.args =~= yt_dlp_download_command_of(platform, target@).args);
        r
    }
}

/// The command that marks the downloaded `yt-dlp` as executable, where one is needed.
pub fn make_executable_command(platform: Platform, target: &str) -> (r: Option<CommandLine>)
    ensures
        platform == Platform::Windows <==> r is None,
        r matches Some(c) ==> c@ == (CommandLineView {
            program: "chmod"@,
            args: seq!["+x"@, target@],
        }),
{
    if platform == Platform::Windows {
        None
    } else {
        let r = CommandLine {
            program: "chmod".to_owned(),
            args: vec!["+x".to_owned(), crate::text::owned(target)],
        };
        assert(r@.args =~= seq!["+x"@, target@]);
        Some(r)
    }
}

/// How the `yt-dlp` download ended: `Err(text)` when the command could not be
/// started, else whether it succeeded.
pub open spec fn yt_dlp_install_result(ran: Result<bool, Seq<char>>) -> Result<(), DownloaderErrorView> {
    match ran {
        Err(m) => Err(DownloaderErrorView::ProcessFailed(m)),
        Ok(true) => Ok(()),
        Ok(false) => Err(DownloaderErrorView::YtDlpUnavailable),
    }
}

pub open spec fn ran_view(ran: Result<bool, String>) -> Result<bool, Seq<char>> {
    match ran {
        Ok(b) => Ok(b),
        Err(m) => Err(m@),
    }
}

pub open spec fn unit_result_view(r: Result<(), DownloaderError>) -> Result<(), DownloaderErrorView> {
    match r {
        Ok(()) => Ok(()),
        Err(e) => Err(e@),
    }
}

pub fn yt_dlp_install_outcome(ran: Result<bool, String>) -> (r: Result<(), DownloaderError>)
    ensures
        unit_result_view(r) == yt_dlp_install_result(ran_view(ran)),
{
    match ran {
        Err(m) => Err(DownloaderError::ProcessFailed(m)),
        Ok(true) => Ok(()),
        Ok(false) => Err(DownloaderError::YtDlpUnavailable),
    }
}

/// The name the static Linux builds use for a CPU architecture (as Rust names it).
pub open spec fn linux_build_arch(arch: Seq<char>) -> Seq<char> {
    if arch == "x86_64"@ {
        "amd64"@
    } else if arch == "aarch64"@ {
        "arm64"@
    } else if arch == "x86"@ || arch == "i686"@ {
        "i686"@
    } else if arch == "arm"@ {
        "armhf"@
    } else {
        "amd64"@
    }
}

pub fn linux_ffmpeg_arch(arch: &str) -> (r: &'static str)
    ensures
        r@ == linux_build_arch(arch@),
{
    if crate::text::str_equal(arch, "x86_64") {
        "amd64"
    } else if crate::text::str_equal(arch, "aarch64") {
        "arm64"
    } else if crate::text::str_equal(arch, "x86") || crate::text::str_equal(arch, "i686") {
        "i686"
    } else if crate::text::str_equal(arch, "arm") {
        "armhf"
    } else {
        "amd64"
    }
}

/// Where the `ffmpeg` tools come from on each system.
#[derive(Debug)]
pub enum FfmpegSource {
    /// A zip holding `ffmpeg.exe`, `ffprobe.exe`, `LICENSE` and `README.txt`.
    WindowsZip { url: String },
    /// A `.tar.xz` of static builds.
    LinuxTarXz { url: String },
    /// JSON documents naming each tool's zip, then the license and read-me.
    MacIntel { ffmpeg_info: String, ffprobe_info: String, license: String, readme: String },
    /// A zip for each tool, then the license and read-me.
    MacArm { ffmpeg_zip: String, ffprobe_zip: String, license: String, readme: String },
    /// No download is known for this system.
    Unavailable,
}

pub enum FfmpegSourceView {
    WindowsZip { url: Seq<char> },
    LinuxTarXz { url: Seq<char> },
    MacIntel { ffmpeg_info: Seq<char>, ffprobe_info: Seq<char>, license: Seq<char>, readme: Seq<char> },
    MacArm { ffmpeg_zip: Seq<char>, ffprobe_zip: Seq<char>, license: Seq<char>, readme: Seq<char> },
    Unavailable,
}

impl View for FfmpegSource {
    type V = FfmpegSourceView;

    open spec fn view(&self) -> FfmpegSourceView {
        match self {
            FfmpegSource::WindowsZip { url } => FfmpegSourceView::WindowsZip { url: url@ },
            FfmpegSource::LinuxTarXz { url } => FfmpegSourceView::LinuxTarXz { url: url@ },
            FfmpegSource::MacIntel { ffmpeg_info, ffprobe_info, license, readme } => FfmpegSourceView::MacIntel {
                ffmpeg_info: ffmpeg_info@,
                ffprobe_info: ffprobe_info@,
                license: license@,
                readme: readme@,
            },
            FfmpegSource::MacArm { ffmpeg_zip, ffprobe_zip, license, readme } => FfmpegSourceView::MacArm {
                ffmpeg_zip: ffmpeg_zip@,
                ffprobe_zip: ffprobe_zip@,
                license: license@,
                readme: readme@,
            },
            FfmpegSource::Unavailable => FfmpegSourceView::Unavailable,
        }
    }
}

pub open spec fn ffmpeg_source_of(platform: Platform, arch: Seq<char>) -> FfmpegSourceView {
    match platform {
        Platform::Windows => FfmpegSourceView::WindowsZip {
            url: "https://github.com/GyanD/codexffmpeg/releases/download/6.1.1/ffmpeg-6.1.1-essentials_build.zip"@,
        },
        Platform::Linux => FfmpegSourceView::LinuxTarXz {
            url: "https://johnvansickle.com/ffmpeg/releases/ffmpeg-release-"@ + linux_build_arch(arch)
                + "-static.tar.xz"@,
        },
        Platform::MacOs => if arch == "x86_64"@ {
            FfmpegSourceView::MacIntel {
                ffmpeg_info: "https://evermeet.cx/ffmpeg/info/ffmpeg/6.1.1"@,
                ffprobe_info: "https://evermeet.cx/ffmpeg/info/ffprobe/6.1.1"@,
                license: "https://git.ffmpeg.org/gitweb/ffmpeg.git/blob_plain/HEAD:/LICENSE.md"@,
                readme: "https://evermeet.cx/ffmpeg/info/ffmpeg/release"@,
            }
        } else {
            FfmpegSourceView::MacArm {
                ffmpeg_zip: "https://www.osxexperts.net/ffmpeg6arm.zip"@,
                ffprobe_zip: "https://www.osxexperts.net/ffprobe6arm.zip"@,
                license: "https://git.ffmpeg.org/gitweb/ffmpeg.git/blob_plain/n6.1.1:/LICENSE.md"@,
                readme: "https://git.ffmpeg.org/gitweb/ffmpeg.git/blob_plain/n6.1.1:/README.md"@,
            }
        },
        Platform::Other => FfmpegSourceView::Unavailable,
    }
}

proof fn lemma_literal_ends(whole: Seq<char>, head: Seq<char>, tail: Seq<char>)
    requires
        whole == head + tail,
    ensures
        crate::text::ends_with(whole, tail),
{
    crate::text::lemma_concat_ends(head, tail);
}

/// Where each tool is fetched from names that tool: on an Intel Mac the
/// `ffmpeg` address is evermeet's `ffmpeg` entry and the `ffprobe` address its
/// `ffprobe` entry; on other Macs the `ffmpeg` and `ffprobe` zips; on Linux the
/// static build for the machine's architecture (amd64 unless it is ARM or
/// 32-bit x86); Windows gets the essentials zip; other systems nothing.
pub proof fn law_each_download_names_its_tool(platform: Platform, arch: Seq<char>)
    ensures
        platform == Platform::MacOs && arch == "x86_64"@ ==> (ffmpeg_source_of(platform, arch) matches FfmpegSourceView::MacIntel { ffmpeg_info, ffprobe_info, .. }
            && crate::text::ends_with(ffmpeg_info, "/info/ffmpeg/6.1.1"@)
            && crate::text::ends_with(ffprobe_info, "/info/ffprobe/6.1.1"@)),
        platform == Platform::MacOs && arch != "x86_64"@ ==> (ffmpeg_source_of(platform, arch) matches FfmpegSourceView::MacArm { ffmpeg_zip, ffprobe_zip, .. }
            && crate::text::ends_with(ffmpeg_zip, "/ffmpeg6arm.zip"@)
            && crate::text::ends_with(ffprobe_zip, "/ffprobe6arm.zip"@)),
        platform == Platform::Windows ==> (ffmpeg_source_of(platform, arch) matches FfmpegSourceView::WindowsZip { url }
            && crate::text::ends_with(url, "/ffmpeg-6.1.1-essentials_build.zip"@)),
        platform == Platform::Linux ==> (ffmpeg_source_of(platform, arch) matches FfmpegSourceView::LinuxTarXz { url }
            && (arch == "x86_64"@ ==> url == "https://johnvansickle.com/ffmpeg/releases/ffmpeg-release-amd64-static.tar.xz"@)
            && (arch == "aarch64"@ ==> url == "https://johnvansickle.com/ffmpeg/releases/ffmpeg-release-arm64-static.tar.xz"@)
            && (arch == "x86"@ || arch == "i686"@ ==> url == "https://johnvansickle.com/ffmpeg/releases/ffmpeg-release-i686-static.tar.xz"@)
            && (arch == "arm"@ ==> url == "https://johnvansickle.com/ffmpeg/releases/ffmpeg-release-armhf-static.tar.xz"@)
            && (arch != "x86_64"@ && arch != "aarch64"@ && arch != "x86"@ && arch != "i686"@ && arch != "arm"@
                ==> url == "https://johnvansickle.com/ffmpeg/releases/ffmpeg-release-amd64-static.tar.xz"@)),
        platform == Platform::Other ==> ffmpeg_source_of(platform, arch) is Unavailable,
{
    reveal_strlit("https://evermeet.cx/ffmpeg/info/ffmpeg/6.1.1");
    reveal_strlit("https://evermeet.cx/ffmpeg/info/ffprobe/6.1.1");
    reveal_strlit("https://evermeet.cx/ffmpeg");
    reveal_strlit("/info/ffmpeg/6.1.1");
    reveal_strlit("/info/ffprobe/6.1.1");
    assert("https://evermeet.cx/ffmpeg/info/ffmpeg/6.1.1"@ =~= "https://evermeet.cx/ffmpeg"@ + "/info/ffmpeg/6.1.1"@);
    lemma_literal_ends("https://evermeet.cx/ffmpeg/info/ffmpeg/6.1.1"@, "https://evermeet.cx/ffmpeg"@, "/info/ffmpeg/6.1.1"@);
    assert("https://evermeet.cx/ffmpeg/info/ffprobe/6.1.1"@ =~= "https://evermeet.cx/ffmpeg"@ + "/info/ffprobe/6.1.1"@);
    lemma_literal_ends("https://evermeet.cx/ffmpeg/info/ffprobe/6.1.1"@, "https://evermeet.cx/ffmpeg"@, "/info/ffprobe/6.1.1"@);
    reveal_strlit("https://www.osxexperts.net/ffmpeg6arm.zip");
    reveal_strlit("https://www.osxexperts.net/ffprobe6arm.zip");
    reveal_strlit("https://www.osxexperts.net");
    reveal_strlit("/ffmpeg6arm.zip");
    reveal_strlit("/ffprobe6arm.zip");
    assert("https://www.osxexperts.net/ffmpeg6arm.zip"@ =~= "https://www.osxexperts.net"@ + "/ffmpeg6arm.zip"@);
    lemma_literal_ends("https://www.osxexperts.net/ffmpeg6arm.zip"@, "https://www.osxexperts.net"@, "/ffmpeg6arm.zip"@);
    assert("https://www.osxexperts.net/ffprobe6arm.zip"@ =~= "https://www.osxexperts.net"@ + "/ffprobe6arm.zip"@);
    lemma_literal_ends("https://www.osxexperts.net/ffprobe6arm.zip"@, "https://www.osxexperts.net"@, "/ffprobe6arm.zip"@);
    reveal_strlit("https://github.com/GyanD/codexffmpeg/releases/download/6.1.1/ffmpeg-6.1.1-essentials_build.zip");
    reveal_strlit("https://github.com/GyanD/codexffmpeg/releases/download/6.1.1");
    reveal_strlit("/ffmpeg-6.1.1-essentials_build.zip");
    assert("https://github.com/GyanD/codexffmpeg/releases/download/6.1.1/ffmpeg-6.1.1-essentials_build.zip"@
        =~= "https://github.com/GyanD/codexffmpeg/releases/download/6.1.1"@ + "/ffmpeg-6.1.1-essentials_build.zip"@);
    lemma_literal_ends(
        "https://github.com/GyanD/codexffmpeg/releases/download/6.1.1/ffmpeg-6.1.1-essentials_build.zip"@,
        "https://github.com/GyanD/codexffmpeg/releases/download/6.1.1"@,
        "/ffmpeg-6.1.1-essentials_build.zip"@,
    );
    reveal_strlit("https://johnvansickle.com/ffmpeg/releases/ffmpeg-release-");
    reveal_strlit("-static.tar.xz");
    reveal_strlit("amd64");
    reveal_strlit("arm64");
    reveal_strlit("i686");
    reveal_strlit("armhf");
    reveal_strlit("x86_64");
    reveal_strlit("aarch64");
    reveal_strlit("x86");
    reveal_strlit("arm");
    reveal_strlit("https://johnvansickle.com/ffmpeg/releases/ffmpeg-release-amd64-static.tar.xz");
    reveal_strlit("https://johnvansickle.com/ffmpeg/releases/ffmpeg-release-arm64-static.tar.xz");
    reveal_strlit("https://johnvansickle.com/ffmpeg/releases/ffmpeg-release-i686-static.tar.xz");
    reveal_strlit("https://johnvansickle.com/ffmpeg/releases/ffmpeg-release-armhf-static.tar.xz");
    assert("aarch64"@ != "x86_64"@) by { assert("aarch64"@[0] != "x86_64"@[0]); }
    assert("x86"@ != "x86_64"@) by { assert("x86"@.len() != "x86_64"@.len()); }
    assert("x86"@ != "aarch64"@) by { assert("x86"@[0] != "aarch64"@[0]); }
    assert("i686"@ != "x86_64"@) by { assert("i686"@[0] != "x86_64"@[0]); }
    assert("i686"@ != "aarch64"@) by { assert("i686"@[0] != "aarch64"@[0]); }
    assert("i686"@ != "x86"@) by { assert("i686"@[0] != "x86"@[0]); }
    assert("arm"@ != "x86_64"@) by { assert("arm"@[0] != "x86_64"@[0]); }
    assert("arm"@ != "aarch64"@) by { assert("arm"@.len() != "aarch64"@.len()); }
    assert("arm"@ != "i686"@) by { assert("arm"@[0] != "i686"@[0]); }
    assert("arm"@ != "x86"@) by { assert("arm"@[0] != "x86"@[0]); }
    let pre = "https://johnvansickle.com/ffmpeg/releases/ffmpeg-release-"@;
    let post = "-static.tar.xz"@;
    assert(pre + "amd64"@ + post =~= "https://johnvansickle.com/ffmpeg/releases/ffmpeg-release-amd64-static.tar.xz"@);
    assert(pre + "arm64"@ + post =~= "https://johnvansickle.com/ffmpeg/releases/ffmpeg-release-arm64-static.tar.xz"@);
    assert(pre + "i686"@ + post =~= "https://johnvansickle.com/ffmpeg/releases/ffmpeg-release-i686-static.tar.xz"@);
    assert(pre + "armhf"@ + post =~= "https://johnvansickle.com/ffmpeg/releases/ffmpeg-release-armhf-static.tar.xz"@);
}

/// Outside Windows a tool lives at `<home>/.pullyt/<tool>`; on Windows at
/// `<home>\.pullyt\<tool>.exe` (for a home that does not already end with a
/// separator and is not a bare drive).
pub proof fn law_tool_path_layout(home: Seq<char>, tool: Tool, platform: Platform)
    requires
        home.len() > 0,
        home.last() != '/',
        home.last() != '\\',
        !is_bare_drive(home),
    ensures
        platform != Platform::Windows && tool == Tool::YtDlp ==> tool_path_of(platform, home, tool) == home + "/.pullyt/yt-dlp"@,
        platform != Platform::Windows && tool == Tool::Ffmpeg ==> tool_path_of(platform, home, tool) == home + "/.pullyt/ffmpeg"@,
        platform != Platform::Windows && tool == Tool::Ffprobe ==> tool_path_of(platform, home, tool) == home + "/.pullyt/ffprobe"@,
        platform == Platform::Windows && tool == Tool::YtDlp ==> tool_path_of(platform, home, tool) == home + "\\.pullyt\\yt-dlp.exe"@,
        platform == Platform::Windows && tool == Tool::Ffmpeg ==> tool_path_of(platform, home, tool) == home + "\\.pullyt\\ffmpeg.exe"@,
        platform == Platform::Windows && tool == Tool::Ffprobe ==> tool_path_of(platform, home, tool) == home + "\\.pullyt\\ffprobe.exe"@,
{
    reveal_strlit(".pullyt");
    reveal_strlit(".exe");
    reveal_strlit("yt-dlp");
    reveal_strlit("ffmpeg");
    reveal_strlit("ffprobe");
    reveal_strlit("/.pullyt/yt-dlp");
    reveal_strlit("/.pullyt/ffmpeg");
    reveal_strlit("/.pullyt/ffprobe");
    reveal_strlit("\\.pullyt\\yt-dlp.exe");
    reveal_strlit("\\.pullyt\\ffmpeg.exe");
    reveal_strlit("\\.pullyt\\ffprobe.exe");
    let dir = bin_dir_of(platform, home);
    assert(dir == home.push(main_separator(platform)) + ".pullyt"@);
    assert(dir.last() == 't');
    let name = executable_name(platform, tool_stem(tool));
    assert(tool_path_of(platform, home, tool) == dir.push(main_separator(platform)) + name);
    if platform == Platform::Windows {
        match tool {
            Tool::YtDlp => assert(dir.push('\\') + name =~= home + "\\.pullyt\\yt-dlp.exe"@),
            Tool::Ffmpeg => assert(dir.push('\\') + name =~= home + "\\.pullyt\\ffmpeg.exe"@),
            Tool::Ffprobe => assert(dir.push('\\') + name =~= home + "\\.pullyt\\ffprobe.exe"@),
        }
    } else {
        match tool {
            Tool::YtDlp => assert(dir.push('/') + name =~= home + "/.pullyt/yt-dlp"@),
            Tool::Ffmpeg => assert(dir.push('/') + name =~= home + "/.pullyt/ffmpeg"@),
            Tool::Ffprobe => assert(dir.push('/') + name =~= home + "/.pullyt/ffprobe"@),
        }
    }
}

/// `yt-dlp` is asked for its version with `--version`, the `ffmpeg` tools
/// with `-version`; each is run by its own name when installed system-wide.
pub proof fn law_tool_commands_and_flags()
    ensures
        version_flag_of(Tool::YtDlp) == "--version"@,
        version_flag_of(Tool::Ffmpeg) == "-version"@,
        version_flag_of(Tool::Ffprobe) == "-version"@,
        tool_stem(Tool::YtDlp) == "yt-dlp"@,
        tool_stem(Tool::Ffmpeg) == "ffmpeg"@,
        tool_stem(Tool::Ffprobe) == "ffprobe"@,
{
}

/// `yt-dlp` is fetched from its latest GitHub release into `target`: by
/// `curl -L <release> -o <target>` outside Windows, and on Windows by a
/// PowerShell `iwr` of the `.exe` release into `target`.
pub proof fn law_yt_dlp_download_command(platform: Platform, target: Seq<char>)
    ensures
        platform != Platform::Windows ==> yt_dlp_download_command_of(platform, target) == (CommandLineView {
            program: "curl"@,
            args: seq![
                "-L"@,
                "https://github.com/yt-dlp/yt-dlp/releases/latest/download/yt-dlp"@,
                "-o"@,
                target,
            ],
        }),
        platform == Platform::Windows ==> yt_dlp_download_command_of(platform, target) == (CommandLineView {
            program: "powershell"@,
            args: seq![
                "-Command"@,
                "iwr https://github.com/yt-dlp/yt-dlp/releases/latest/download/yt-dlp.exe -OutFile '"@ + target
                    + "'"@,
            ],
        }),
{
    reveal_strlit("iwr ");
    reveal_strlit("https://github.com/yt-dlp/yt-dlp/releases/latest/download/yt-dlp.exe");
    reveal_strlit(" -OutFile '");
    reveal_strlit("iwr https://github.com/yt-dlp/yt-dlp/releases/latest/download/yt-dlp.exe -OutFile '");
    assert("iwr "@ + "https://github.com/yt-dlp/yt-dlp/releases/latest/download/yt-dlp.exe"@ + " -OutFile '"@
        =~= "iwr https://github.com/yt-dlp/yt-dlp/releases/latest/download/yt-dlp.exe -OutFile '"@);
    if platform == Platform::Windows {
        assert(yt_dlp_download_command_of(platform, target).args =~= seq![
            "-Command"@,
            "iwr https://github.com/yt-dlp/yt-dlp/releases/latest/download/yt-dlp.exe -OutFile '"@ + target + "'"@,
        ]);
    }
}

/// Where to fetch the `ffmpeg` tools for `platform` on the CPU `arch`.
pub fn ffmpeg_source(platform: Platform, arch: &str) -> (r: FfmpegSource)
    ensures
        r@ == ffmpeg_source_of(platform, arch@),
{
    match platform {
        Platform::Windows => FfmpegSource::WindowsZip {
            url: "https://github.com/GyanD/codexffmpeg/releases/download/6.1.1/ffmpeg-6.1.1-essentials_build.zip".to_owned(),
        },
        Platform::Linux => FfmpegSource::LinuxTarXz {
            url: crate::text::concat3(
                "https://johnvansickle.com/ffmpeg/releases/ffmpeg-release-",
                linux_ffmpeg_arch(arch),
                "-static.tar.xz",
            ),
        },
        Platform::MacOs => if crate::text::str_equal(arch, "x86_64") {
            FfmpegSource::MacIntel {
                ffmpeg_info: "https://evermeet.cx/ffmpeg/info/ffmpeg/6.1.1".to_owned(),
                ffprobe_info: "https://evermeet.cx/ffmpeg/info/ffprobe/6.1.1".to_owned(),
                license: "https://git.ffmpeg.org/gitweb/ffmpeg.git/blob_plain/HEAD:/LICENSE.md".to_owned(),
                readme: "https://evermeet.cx/ffmpeg/info/ffmpeg/release".to_owned(),
            }
        } else {
            FfmpegSource::MacArm {
                ffmpeg_zip: "https://www.osxexperts.net/ffmpeg6arm.zip".to_owned(),
                ffprobe_zip: "https://www.osxexperts.net/ffprobe6arm.zip".to_owned(),
                license: "https://git.ffmpeg.org/gitweb/ffmpeg.git/blob_plain/n6.1.1:/LICENSE.md".to_owned(),
                readme: "https://git.ffmpeg.org/gitweb/ffmpeg.git/blob_plain/n6.1.1:/README.md".to_owned(),
            }
        },
        Platform::Other => FfmpegSource::Unavailable,
    }
}

/// The error a failed download of `url` is reported with.
pub fn download_failure(url: &str, reason: &str) -> (e: DownloaderError)
    ensures
        e@ == DownloaderErrorView::ProcessFailed("download failed ("@ + url@ + "): "@ + reason@),
{
    let mut m = crate::text::concat3("download failed (", url, "): ");
    m.append(reason);
    DownloaderError::ProcessFailed(m)
}

/// The zip address named by an evermeet info document, as read from its JSON:
/// `Err(text)` when it is not JSON, `Ok(None)` when `download.zip.url` is not a string.
pub open spec fn evermeet_zip_url_of(read: Result<Option<Seq<char>>, Seq<char>>) -> Result<Seq<char>, DownloaderErrorView> {
    match read {
        Err(m) => Err(DownloaderErrorView::ProcessFailed(m)),
        Ok(None) => Err(DownloaderErrorView::ProcessFailed("invalid evermeet JSON payload"@)),
        Ok(Some(u)) => Ok(u),
    }
}

pub open spec fn read_view(read: Result<Option<String>, String>) -> Result<Option<Seq<char>>, Seq<char>> {
    match read {
        Err(m) => Err(m@),
        Ok(None) => Ok(None),
        Ok(Some(u)) => Ok(Some(u@)),
    }
}

pub open spec fn string_result_view(r: Result<String, DownloaderError>) -> Result<Seq<char>, DownloaderErrorView> {
    match r {
        Ok(s) => Ok(s@),
        Err(e) => Err(e@),
    }
}

pub fn evermeet_zip_url(read: Result<Option<String>, String>) -> (r: Result<String, DownloaderError>)
    ensures
        string_result_view(r) == evermeet_zip_url_of(read_view(read)),
{
    match read {
        Err(m) => Err(DownloaderError::ProcessFailed(m)),
        Ok(None) => Err(DownloaderError::ProcessFailed("invalid evermeet JSON payload".to_owned())),
        Ok(Some(u)) => Ok(u),
    }
}


/// Whether `bytes` is a JSON document, as `serde_json` reads one.
pub uninterp spec fn json_is_valid(bytes: Seq<u8>) -> bool;

/// The string found in the JSON document `bytes` at the JSON Pointer `pointer`,
/// if there is a string there.
pub uninterp spec fn json_string_at(bytes: Seq<u8>, pointer: Seq<char>) -> Option<Seq<char>>;

/// The text `serde_json` reports for `bytes` when it is not a JSON document.
pub uninterp spec fn json_error_text(bytes: Seq<u8>) -> Seq<char>;

/// Reads the string at `pointer` in the JSON document `bytes`.
/// Calls `serde_json::from_slice` into a `serde_json::Value`, then
/// `Value::pointer` and `Value::as_str`; a parse error becomes its text. Each
/// result depends on `bytes` and `pointer` alone, which the names state; what
/// they are is `serde_json`'s JSON grammar and pointer syntax, not stated here.
#[verifier::external_body]
fn read_json_string(bytes: &[u8], pointer: &str) -> (r: Result<Option<String>, String>)
    ensures
        r is Ok <==> json_is_valid(bytes@),
        r matches Ok(o) ==> opt_view(o) == json_string_at(bytes@, pointer@),
        r matches Err(m) ==> m@ == json_error_text(bytes@),
{
    serde_json::from_slice::<serde_json::Value>(bytes)
        .map(|v| v.pointer(pointer).and_then(serde_json::Value::as_str).map(|s| s.to_owned()))
        .map_err(|e| e.to_string())
}

/// The zip address an evermeet info document gives under `download.zip.url`.
pub fn parse_evermeet_download_url(json_bytes: &[u8]) -> (r: Result<String, DownloaderError>)
    ensures
        string_result_view(r) == evermeet_zip_url_of(
            if json_is_valid(json_bytes@) {
                Ok(json_string_at(json_bytes@, "/download/zip/url"@))
            } else {
                Err(json_error_text(json_bytes@))
            },
        ),
{
    let read = read_json_string(json_bytes, "/download/zip/url");
    evermeet_zip_url(read)
}

} // verus!
