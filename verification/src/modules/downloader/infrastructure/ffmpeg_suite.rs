//! Installing the application's own `ffmpeg` and `ffprobe`: the decisions of
//! the installation, of checking each installed program (up to five tries),
//! and of picking the wanted files out of the downloaded archives. The caller
//! performs each requested action and hands back what happened.
use vstd::prelude::*;

use crate::modules::downloader::domain::errors::{DownloaderError, DownloaderErrorView};
use crate::text::{ends_with, lowercase, trim};
use super::dependencies::{unit_result_view, Tool};

verus! {

/// Where an installation of the suite stands.
#[derive(Debug, Clone, Copy, PartialEq, Eq, Structural)]
pub enum SuiteStage {
    CheckExisting,
    CreateDir,
    InstallArchive,
    CheckInstalled,
    ValidateFfmpeg,
    ValidateFfprobe,
    Finished,
}

/// What the caller is asked to do next.
#[derive(Debug)]
pub enum SuiteAction {
    /// Report whether the local `ffmpeg` and `ffprobe` files exist.
    CheckFiles,
    /// Create the private tool directory.
    CreateBinDir,
    /// Download the archive for this system and write the files out of it.
    InstallArchive,
    /// Check that the installed program runs (see `BinaryCheck`).
    ValidateBinary(Tool),
    /// The installation is over.
    Done(Result<(), DownloaderError>),
}

pub enum SuiteActionView {
    CheckFiles,
    CreateBinDir,
    InstallArchive,
    ValidateBinary(Tool),
    Done(Result<(), DownloaderErrorView>),
}

impl View for SuiteAction {
    type V = SuiteActionView;

    open spec fn view(&self) -> SuiteActionView {
        match self {
            SuiteAction::CheckFiles => SuiteActionView::CheckFiles,
            SuiteAction::CreateBinDir => SuiteActionView::CreateBinDir,
            SuiteAction::InstallArchive => SuiteActionView::InstallArchive,
            SuiteAction::ValidateBinary(t) => SuiteActionView::ValidateBinary(*t),
            SuiteAction::Done(r) => SuiteActionView::Done(unit_result_view(*r)),
        }
    }
}

/// What happened when the caller performed the last action.
#[derive(Debug)]
pub enum SuiteEvent {
    FilesPresent { ffmpeg: bool, ffprobe: bool },
    /// `Err` holds the reason the directory could not be made.
    DirCreated(Result<(), String>),
    ArchiveInstalled(Result<(), DownloaderError>),
    Validated(Result<(), DownloaderError>),
}

pub enum SuiteEventView {
    FilesPresent { ffmpeg: bool, ffprobe: bool },
    DirCreated(Result<(), Seq<char>>),
    ArchiveInstalled(Result<(), DownloaderErrorView>),
    Validated(Result<(), DownloaderErrorView>),
}

impl View for SuiteEvent {
    type V = SuiteEventView;

    open spec fn view(&self) -> SuiteEventView {
        match self {
            SuiteEvent::FilesPresent { ffmpeg, ffprobe } => SuiteEventView::FilesPresent {
                ffmpeg: *ffmpeg,
                ffprobe: *ffprobe,
            },
            SuiteEvent::DirCreated(r) => SuiteEventView::DirCreated(
                match r {
                    Ok(()) => Ok(()),
                    Err(m) => Err(m@),
                },
            ),
            SuiteEvent::ArchiveInstalled(r) => SuiteEventView::ArchiveInstalled(unit_result_view(*r)),
            SuiteEvent::Validated(r) => SuiteEventView::Validated(unit_result_view(*r)),
        }
    }
}

pub open spec fn suite_pending(stage: SuiteStage) -> SuiteActionView {
    match stage {
        SuiteStage::CheckExisting => SuiteActionView::CheckFiles,
        SuiteStage::CreateDir => SuiteActionView::CreateBinDir,
        SuiteStage::InstallArchive => SuiteActionView::InstallArchive,
        SuiteStage::CheckInstalled => SuiteActionView::CheckFiles,
        SuiteStage::ValidateFfmpeg => SuiteActionView::ValidateBinary(Tool::Ffmpeg),
        SuiteStage::ValidateFfprobe => SuiteActionView::ValidateBinary(Tool::Ffprobe),
        SuiteStage::Finished => SuiteActionView::Done(Err(DownloaderErrorView::ProcessFailed(
            "installation already finished"@,
        ))),
    }
}

/// One step of the installation. When both programs are already there nothing
/// is done; otherwise the directory is made, the archive for this system is
/// installed (when one is known), both programs must then exist and each must run.
pub open spec fn suite_step(has_installer: bool, stage: SuiteStage, event: SuiteEventView) -> (
    SuiteStage,
    SuiteActionView,
) {
    match (stage, event) {
        (SuiteStage::CheckExisting, SuiteEventView::FilesPresent { ffmpeg, ffprobe }) => {
            if ffmpeg && ffprobe {
                (SuiteStage::Finished, SuiteActionView::Done(Ok(())))
            } else {
                (SuiteStage::CreateDir, SuiteActionView::CreateBinDir)
            }
        },
        (SuiteStage::CreateDir, SuiteEventView::DirCreated(r)) => match r {
            Err(m) => (SuiteStage::Finished, SuiteActionView::Done(Err(DownloaderErrorView::ProcessFailed(m)))),
            Ok(()) => if has_installer {
                (SuiteStage::InstallArchive, SuiteActionView::InstallArchive)
            } else {
                (SuiteStage::CheckInstalled, SuiteActionView::CheckFiles)
            },
        },
        (SuiteStage::InstallArchive, SuiteEventView::ArchiveInstalled(r)) => match r {
            Err(e) => (SuiteStage::Finished, SuiteActionView::Done(Err(e))),
            Ok(()) => (SuiteStage::CheckInstalled, SuiteActionView::CheckFiles),
        },
        (SuiteStage::CheckInstalled, SuiteEventView::FilesPresent { ffmpeg, ffprobe }) => {
            if ffmpeg && ffprobe {
                (SuiteStage::ValidateFfmpeg, SuiteActionView::ValidateBinary(Tool::Ffmpeg))
            } else {
                (SuiteStage::Finished, SuiteActionView::Done(Err(DownloaderErrorView::FfmpegUnavailable)))
            }
        },
        (SuiteStage::ValidateFfmpeg, SuiteEventView::Validated(r)) => match r {
            Err(e) => (SuiteStage::Finished, SuiteActionView::Done(Err(e))),
            Ok(()) => (SuiteStage::ValidateFfprobe, SuiteActionView::ValidateBinary(Tool::Ffprobe)),
        },
        (SuiteStage::ValidateFfprobe, SuiteEventView::Validated(r)) => (
            SuiteStage::Finished,
            SuiteActionView::Done(r),
        ),
        _ => (stage, suite_pending(stage)),
    }
}

/// An installation of the suite in progress.
pub struct SuiteInstall {
    has_installer: bool,
    stage: SuiteStage,
}

impl SuiteInstall {
    pub closed spec fn has_installer(&self) -> bool {
        self.has_installer
    }

    pub closed spec fn stage(&self) -> SuiteStage {
        self.stage
    }

    /// Starts an installation; `has_installer` says whether an archive is
    /// known for this system. The first action is to look for both files.
    pub fn start(has_installer: bool) -> (r: (SuiteInstall, SuiteAction))
        ensures
            r.0.has_installer() == has_installer,
            r.0.stage() == SuiteStage::CheckExisting,
            r.1@ == SuiteActionView::CheckFiles,
    {
        (SuiteInstall { has_installer, stage: SuiteStage::CheckExisting }, SuiteAction::CheckFiles)
    }

    pub fn advance(&mut self, event: SuiteEvent) -> (a: SuiteAction)
        ensures
            final(self).has_installer() == old(self).has_installer(),
            (final(self).stage(), a@) == suite_step(old(self).has_installer(), old(self).stage(), event@),
    {
        match (self.stage, event) {
            (SuiteStage::CheckExisting, SuiteEvent::FilesPresent { ffmpeg, ffprobe }) => {
                if ffmpeg && ffprobe {
                    self.stage = SuiteStage::Finished;
                    SuiteAction::Done(Ok(()))
                } else {
                    self.stage = SuiteStage::CreateDir;
                    SuiteAction::CreateBinDir
                }
            },
            (SuiteStage::CreateDir, SuiteEvent::DirCreated(r)) => match r {
                Err(m) => {
                    self.stage = SuiteStage::Finished;
                    SuiteAction::Done(Err(DownloaderError::ProcessFailed(m)))
                },
                Ok(()) => if self.has_installer {
                    self.stage = SuiteStage::InstallArchive;
                    SuiteAction::InstallArchive
                } else {
                    self.stage = SuiteStage::CheckInstalled;
                    SuiteAction::CheckFiles
                },
            },
            (SuiteStage::InstallArchive, SuiteEvent::ArchiveInstalled(r)) => match r {
                Err(e) => {
                    self.stage = SuiteStage::Finished;
                    SuiteAction::Done(Err(e))
                },
                Ok(()) => {
                    self.stage = SuiteStage::CheckInstalled;
                    SuiteAction::CheckFiles
                },
            },
            (SuiteStage::CheckInstalled, SuiteEvent::FilesPresent { ffmpeg, ffprobe }) => {
                if ffmpeg && ffprobe {
                    self.stage = SuiteStage::ValidateFfmpeg;
                    SuiteAction::ValidateBinary(Tool::Ffmpeg)
                } else {
                    self.stage = SuiteStage::Finished;
                    SuiteAction::Done(Err(DownloaderError::FfmpegUnavailable))
                }
            },
            (SuiteStage::ValidateFfmpeg, SuiteEvent::Validated(r)) => match r {
                Err(e) => {
                    self.stage = SuiteStage::Finished;
                    SuiteAction::Done(Err(e))
                },
                Ok(()) => {
                    self.stage = SuiteStage::ValidateFfprobe;
                    SuiteAction::ValidateBinary(Tool::Ffprobe)
                },
            },
            (SuiteStage::ValidateFfprobe, SuiteEvent::Validated(r)) => {
                self.stage = SuiteStage::Finished;
                SuiteAction::Done(r)
            },
            (stage, _) => match stage {
                SuiteStage::CheckExisting => SuiteAction::CheckFiles,
                SuiteStage::CreateDir => SuiteAction::CreateBinDir,
                SuiteStage::InstallArchive => SuiteAction::InstallArchive,
                SuiteStage::CheckInstalled => SuiteAction::CheckFiles,
                SuiteStage::ValidateFfmpeg => SuiteAction::ValidateBinary(Tool::Ffmpeg),
                SuiteStage::ValidateFfprobe => SuiteAction::ValidateBinary(Tool::Ffprobe),
                SuiteStage::Finished => SuiteAction::Done(
                    Err(DownloaderError::ProcessFailed("installation already finished".to_owned())),
                ),
            },
        }
    }
}

pub open spec fn suite_rank(stage: SuiteStage) -> nat {
    match stage {
        SuiteStage::CheckExisting => 0,
        SuiteStage::CreateDir => 1,
        SuiteStage::InstallArchive => 2,
        SuiteStage::CheckInstalled => 3,
        SuiteStage::ValidateFfmpeg => 4,
        SuiteStage::ValidateFfprobe => 5,
        SuiteStage::Finished => 6,
    }
}

pub open spec fn suite_answers(stage: SuiteStage, event: SuiteEventView) -> bool {
    match (stage, event) {
        (SuiteStage::CheckExisting, SuiteEventView::FilesPresent { .. }) => true,
        (SuiteStage::CreateDir, SuiteEventView::DirCreated(_)) => true,
        (SuiteStage::InstallArchive, SuiteEventView::ArchiveInstalled(_)) => true,
        (SuiteStage::CheckInstalled, SuiteEventView::FilesPresent { .. }) => true,
        (SuiteStage::ValidateFfmpeg, SuiteEventView::Validated(_)) => true,
        (SuiteStage::ValidateFfprobe, SuiteEventView::Validated(_)) => true,
        _ => false,
    }
}

/// Every answered action moves the installation forward, so it ends after at
/// most six answers; it succeeds only when both programs were already there,
/// or when both were installed and the second of them, checked last, ran.
pub proof fn law_suite_moves_forward(has_installer: bool, stage: SuiteStage, event: SuiteEventView)
    requires
        suite_answers(stage, event),
    ensures
        suite_rank(suite_step(has_installer, stage, event).0) > suite_rank(stage),
        suite_step(has_installer, stage, event).1 == SuiteActionView::Done(Ok(())) ==> (
            (stage == SuiteStage::CheckExisting && event == (SuiteEventView::FilesPresent {
                ffmpeg: true,
                ffprobe: true,
            })) || (stage == SuiteStage::ValidateFfprobe && event == SuiteEventView::Validated(
                Ok(()),
            ))),
        suite_step(has_installer, stage, event).1 is InstallArchive ==> has_installer,
{
}

/// Answers each action the installation asks for with the first event in
/// `answers` of the matching kind; stops at `Done`.
pub open spec fn drive_suite(
    has_installer: bool,
    stage: SuiteStage,
    answers: Seq<SuiteEventView>,
    action: SuiteActionView,
) -> SuiteActionView
    decreases answers.len(),
{
    if action is Done || answers.len() == 0 {
        action
    } else if suite_answers(stage, answers[0]) {
        let (next, a) = suite_step(has_installer, stage, answers[0]);
        drive_suite(has_installer, next, answers.drop_first(), a)
    } else {
        drive_suite(has_installer, stage, answers.drop_first(), action)
    }
}

/// The installation, step by step: nothing to do when both programs are
/// there; else the directory is made (its error, as text, is the answer), the
/// archive is installed when one is known (its error is the answer), both
/// programs must now be there, and `ffmpeg` then `ffprobe` must run.
pub open spec fn suite_rule(
    has_installer: bool,
    present: bool,
    dir: Result<(), Seq<char>>,
    installed: Result<(), DownloaderErrorView>,
    present_after: bool,
    ffmpeg_runs: Result<(), DownloaderErrorView>,
    ffprobe_runs: Result<(), DownloaderErrorView>,
) -> Result<(), DownloaderErrorView> {
    if present {
        Ok(())
    } else {
        match dir {
            Err(m) => Err(DownloaderErrorView::ProcessFailed(m)),
            Ok(()) => {
                let inst = if has_installer { installed } else { Ok(()) };
                match inst {
                    Err(e) => Err(e),
                    Ok(()) => if !present_after {
                        Err(DownloaderErrorView::FfmpegUnavailable)
                    } else {
                        match ffmpeg_runs {
                            Err(e) => Err(e),
                            Ok(()) => ffprobe_runs,
                        }
                    },
                }
            },
        }
    }
}

/// Driven through a whole installation, the machine answers what the
/// step-by-step rule says.
pub proof fn law_suite_follows_rule(
    has_installer: bool,
    ffmpeg: bool,
    ffprobe: bool,
    dir: Result<(), Seq<char>>,
    installed: Result<(), DownloaderErrorView>,
    ffmpeg_after: bool,
    ffprobe_after: bool,
    ffmpeg_runs: Result<(), DownloaderErrorView>,
    ffprobe_runs: Result<(), DownloaderErrorView>,
)
    ensures
        drive_suite(
            has_installer,
            SuiteStage::CheckExisting,
            seq![
                SuiteEventView::FilesPresent { ffmpeg, ffprobe },
                SuiteEventView::DirCreated(dir),
                SuiteEventView::ArchiveInstalled(installed),
                SuiteEventView::FilesPresent { ffmpeg: ffmpeg_after, ffprobe: ffprobe_after },
                SuiteEventView::Validated(ffmpeg_runs),
                SuiteEventView::Validated(ffprobe_runs),
            ],
            SuiteActionView::CheckFiles,
        ) == SuiteActionView::Done(
            suite_rule(has_installer, ffmpeg && ffprobe, dir, installed, ffmpeg_after && ffprobe_after, ffmpeg_runs, ffprobe_runs),
        ),
{
    reveal_with_fuel(drive_suite, 7);
    let e0 = SuiteEventView::FilesPresent { ffmpeg, ffprobe };
    let e1 = SuiteEventView::DirCreated(dir);
    let e2 = SuiteEventView::ArchiveInstalled(installed);
    let e3 = SuiteEventView::FilesPresent { ffmpeg: ffmpeg_after, ffprobe: ffprobe_after };
    let e4 = SuiteEventView::Validated(ffmpeg_runs);
    let e5 = SuiteEventView::Validated(ffprobe_runs);
    let a = seq![e0, e1, e2, e3, e4, e5];
    assert(a.drop_first() == seq![e1, e2, e3, e4, e5]);
    assert(a.drop_first().drop_first() == seq![e2, e3, e4, e5]);
    assert(a.drop_first().drop_first().drop_first() == seq![e3, e4, e5]);
    assert(a.drop_first().drop_first().drop_first().drop_first() == seq![e4, e5]);
    assert(a.drop_first().drop_first().drop_first().drop_first().drop_first() == seq![e5]);
    assert(a.drop_first().drop_first().drop_first().drop_first().drop_first().drop_first() == Seq::<SuiteEventView>::empty());
}

/// Where checking an installed program stands.
#[derive(Debug, Clone, Copy, PartialEq, Eq, Structural)]
pub enum CheckStage {
    Running,
    Sleeping,
    Finished,
}

/// What the caller is asked to do next.
#[derive(Debug)]
pub enum CheckAction {
    /// Run the program with `-version`.
    RunVersionCheck,
    /// Wait this many milliseconds before going on.
    Sleep(u64),
    Done(Result<(), DownloaderError>),
}

pub enum CheckActionView {
    RunVersionCheck,
    Sleep(u64),
    Done(Result<(), DownloaderErrorView>),
}

impl View for CheckAction {
    type V = CheckActionView;

    open spec fn view(&self) -> CheckActionView {
        match self {
            CheckAction::RunVersionCheck => CheckActionView::RunVersionCheck,
            CheckAction::Sleep(ms) => CheckActionView::Sleep(*ms),
            CheckAction::Done(r) => CheckActionView::Done(unit_result_view(*r)),
        }
    }
}

/// How a run of the program ended.
#[derive(Debug)]
pub enum CheckEvent {
    /// It ran; `status` and `stderr` are its exit status and error output as text.
    Exited { success: bool, status: String, stderr: String },
    /// It could not be started, for the reason given.
    FailedToRun { error: String },
    /// The requested wait is over.
    Slept,
}

pub enum CheckEventView {
    Exited { success: bool, status: Seq<char>, stderr: Seq<char> },
    FailedToRun { error: Seq<char> },
    Slept,
}

impl View for CheckEvent {
    type V = CheckEventView;

    open spec fn view(&self) -> CheckEventView {
        match self {
            CheckEvent::Exited { success, status, stderr } => CheckEventView::Exited {
                success: *success,
                status: status@,
                stderr: stderr@,
            },
            CheckEvent::FailedToRun { error } => CheckEventView::FailedToRun { error: error@ },
            CheckEvent::Slept => CheckEventView::Slept,
        }
    }
}

/// How many times a program is tried.
pub open spec fn max_attempts() -> u32 {
    5
}

/// The digit an attempt number (1 to 5) is written with.
pub open spec fn attempt_digit(n: u32) -> char {
    if n == 1 {
        '1'
    } else if n == 2 {
        '2'
    } else if n == 3 {
        '3'
    } else if n == 4 {
        '4'
    } else {
        '5'
    }
}

pub open spec fn attempt_suffix(n: u32) -> Seq<char> {
    " (attempt "@ + seq![attempt_digit(n)] + "/5): "@
}

/// The reason recorded when the program ran and failed.
pub open spec fn exit_failure_text(name: Seq<char>, status: Seq<char>, attempt: u32, stderr: Seq<char>) -> Seq<char> {
    name + " -version exited with "@ + status + attempt_suffix(attempt) + trim(stderr)
}

/// The reason recorded when the program could not be started.
pub open spec fn start_failure_text(name: Seq<char>, path: Seq<char>, attempt: u32, error: Seq<char>) -> Seq<char> {
    "failed to run "@ + name + " at "@ + path + attempt_suffix(attempt) + error
}

/// A check in progress: which attempt, the reason the last one failed, and the stage.
pub struct CheckState {
    pub attempt: u32,
    pub last_error: Seq<char>,
    pub stage: CheckStage,
}

/// One step of checking program `name` at `path`: a successful run ends the
/// check; a failed one records why and waits 250 ms; after the wait the next
/// attempt runs, or after the fifth the validation fails with the last reason.
pub open spec fn check_step(name: Seq<char>, path: Seq<char>, s: CheckState, event: CheckEventView) -> (
    CheckState,
    CheckActionView,
) {
    match (s.stage, event) {
        (CheckStage::Running, CheckEventView::Exited { success, status, stderr }) => if success {
            (CheckState { stage: CheckStage::Finished, ..s }, CheckActionView::Done(Ok(())))
        } else {
            (
                CheckState {
                    last_error: exit_failure_text(name, status, s.attempt, stderr),
                    stage: CheckStage::Sleeping,
                    ..s
                },
                CheckActionView::Sleep(250),
            )
        },
        (CheckStage::Running, CheckEventView::FailedToRun { error }) => (
            CheckState {
                last_error: start_failure_text(name, path, s.attempt, error),
                stage: CheckStage::Sleeping,
                ..s
            },
            CheckActionView::Sleep(250),
        ),
        (CheckStage::Sleeping, CheckEventView::Slept) => if s.attempt < max_attempts() {
            (
                CheckState { attempt: (s.attempt + 1) as u32, stage: CheckStage::Running, ..s },
                CheckActionView::RunVersionCheck,
            )
        } else {
            (
                CheckState { stage: CheckStage::Finished, ..s },
                CheckActionView::Done(Err(DownloaderErrorView::ProcessFailed(s.last_error))),
            )
        },
        _ => (s, check_pending(s.stage)),
    }
}

pub open spec fn check_pending(stage: CheckStage) -> CheckActionView {
    match stage {
        CheckStage::Running => CheckActionView::RunVersionCheck,
        CheckStage::Sleeping => CheckActionView::Sleep(250),
        CheckStage::Finished => CheckActionView::Done(Err(DownloaderErrorView::ProcessFailed(
            "check already finished"@,
        ))),
    }
}

/// Checking that an installed program runs.
pub struct BinaryCheck {
    name: String,
    path: String,
    attempt: u32,
    last_error: String,
    stage: CheckStage,
}

impl BinaryCheck {
    pub closed spec fn name(&self) -> Seq<char> {
        self.name@
    }

    pub closed spec fn path(&self) -> Seq<char> {
        self.path@
    }

    pub closed spec fn state(&self) -> CheckState {
        CheckState { attempt: self.attempt, last_error: self.last_error@, stage: self.stage }
    }

    /// Attempts are numbered 1 to 5.
    pub closed spec fn wf(&self) -> bool {
        1 <= self.attempt <= max_attempts()
    }

    /// Starts checking program `name` at `path`: the first attempt runs at once.
    pub fn start(name: String, path: String) -> (r: (BinaryCheck, CheckAction))
        ensures
            r.0.wf(),
            r.0.name() == name@,
            r.0.path() == path@,
            r.0.state() == (CheckState { attempt: 1, last_error: Seq::empty(), stage: CheckStage::Running }),
            r.1@ == CheckActionView::RunVersionCheck,
    {
        (
            BinaryCheck { name, path, attempt: 1, last_error: String::new(), stage: CheckStage::Running },
            CheckAction::RunVersionCheck,
        )
    }

    fn attempt_char(&self) -> (c: char)
        ensures
            c == attempt_digit(self.attempt),
    {
        if self.attempt == 1 {
            '1'
        } else if self.attempt == 2 {
            '2'
        } else if self.attempt == 3 {
            '3'
        } else if self.attempt == 4 {
            '4'
        } else {
            '5'
        }
    }

    fn suffix(&self) -> (r: String)
        ensures
            r@ == attempt_suffix(self.attempt),
    {
        let mut r = " (attempt ".to_owned();
        crate::text::push_char(&mut r, self.attempt_char());
        r.append("/5): ");
        assert(r@ =~= attempt_suffix(self.attempt));
        r
    }

    pub fn advance(&mut self, event: CheckEvent) -> (a: CheckAction)
        requires
            old(self).wf(),
        ensures
            final(self).wf(),
            final(self).name() == old(self).name(),
            final(self).path() == old(self).path(),
            (final(self).state(), a@) == check_step(old(self).name(), old(self).path(), old(self).state(), event@),
    {
        match (self.stage, event) {
            (CheckStage::Running, CheckEvent::Exited { success, status, stderr }) => {
                if success {
                    self.stage = CheckStage::Finished;
                    CheckAction::Done(Ok(()))
                } else {
                    let mut m = crate::text::concat3(self.name.as_str(), " -version exited with ", status.as_str());
                    let suffix = self.suffix();
                    m.append(suffix.as_str());
                    let t = crate::text::trim_str(stderr.as_str());
                    m.append(t.as_str());
                    self.last_error = m;
                    self.stage = CheckStage::Sleeping;
                    CheckAction::Sleep(250)
                }
            },
            (CheckStage::Running, CheckEvent::FailedToRun { error }) => {
                let mut m = crate::text::concat3("failed to run ", self.name.as_str(), " at ");
                m.append(self.path.as_str());
                let suffix = self.suffix();
                m.append(suffix.as_str());
                m.append(error.as_str());
                self.last_error = m;
                self.stage = CheckStage::Sleeping;
                CheckAction::Sleep(250)
            },
            (CheckStage::Sleeping, CheckEvent::Slept) => {
                if self.attempt < 5 {
                    self.attempt = self.attempt + 1;
                    self.stage = CheckStage::Running;
                    CheckAction::RunVersionCheck
                } else {
                    self.stage = CheckStage::Finished;
                    CheckAction::Done(Err(DownloaderError::ProcessFailed(self.last_error.clone())))
                }
            },
            (stage, _) => match stage {
                CheckStage::Running => CheckAction::RunVersionCheck,
                CheckStage::Sleeping => CheckAction::Sleep(250),
                CheckStage::Finished => CheckAction::Done(
                    Err(DownloaderError::ProcessFailed("check already finished".to_owned())),
                ),
            },
        }
    }
}

/// A program is run at most five times: a new attempt starts only while fewer
/// than five have been made, and after the fifth failure the validation fails with
/// the reason recorded for it.
pub proof fn law_at_most_five_attempts(name: Seq<char>, path: Seq<char>, s: CheckState, event: CheckEventView)
    requires
        1 <= s.attempt <= max_attempts(),
    ensures
        check_step(name, path, s, event).1 is RunVersionCheck ==> (check_step(name, path, s, event).0.attempt
            <= max_attempts()),
        check_step(name, path, s, event).0.attempt > s.attempt ==> s.attempt < max_attempts(),
        (s.stage == CheckStage::Sleeping && s.attempt == max_attempts() && event is Slept) ==> check_step(
            name,
            path,
            s,
            event,
        ).1 == CheckActionView::Done(Err(DownloaderErrorView::ProcessFailed(s.last_error))),
{
}

/// A run that succeeds ends the validation with success at once.
pub proof fn law_success_ends_check(name: Seq<char>, path: Seq<char>, s: CheckState, status: Seq<char>, stderr: Seq<char>)
    requires
        s.stage == CheckStage::Running,
    ensures
        check_step(name, path, s, CheckEventView::Exited { success: true, status, stderr }).1
            == CheckActionView::Done(Ok(())),
{
}

/// Answers each action the validation asks for with the next event in
/// `answers`; stops at `Done`.
pub open spec fn drive_check(name: Seq<char>, path: Seq<char>, s: CheckState, answers: Seq<CheckEventView>, action: CheckActionView) -> CheckActionView
    decreases answers.len(),
{
    if action is Done || answers.len() == 0 {
        action
    } else {
        let (next, a) = check_step(name, path, s, answers[0]);
        drive_check(name, path, next, answers.drop_first(), a)
    }
}

/// A run of the program: it ran, or it could not be started.
pub open spec fn is_run(e: CheckEventView) -> bool {
    e is Exited || e is FailedToRun
}

pub open spec fn run_succeeded(e: CheckEventView) -> bool {
    e matches CheckEventView::Exited { success, .. } && success
}

/// The reason recorded for a failed run, the `n`-th attempt.
pub open spec fn failure_text(name: Seq<char>, path: Seq<char>, e: CheckEventView, n: u32) -> Seq<char> {
    match e {
        CheckEventView::Exited { status, stderr, .. } => exit_failure_text(name, status, n, stderr),
        CheckEventView::FailedToRun { error } => start_failure_text(name, path, n, error),
        CheckEventView::Slept => Seq::empty(),
    }
}

/// The validation, step by step: success at the first run that succeeds among
/// five; otherwise failure with the reason of the fifth.
pub open spec fn check_rule(name: Seq<char>, path: Seq<char>, runs: Seq<CheckEventView>) -> Result<(), DownloaderErrorView> {
    if run_succeeded(runs[0]) || run_succeeded(runs[1]) || run_succeeded(runs[2]) || run_succeeded(runs[3])
        || run_succeeded(runs[4]) {
        Ok(())
    } else {
        Err(DownloaderErrorView::ProcessFailed(failure_text(name, path, runs[4], 5)))
    }
}

/// Driven through five runs, each followed by the wait, the validation answers
/// what the step-by-step rule says.
pub proof fn law_check_follows_rule(name: Seq<char>, path: Seq<char>, runs: Seq<CheckEventView>)
    requires
        runs.len() == 5,
        forall|i: int| 0 <= i < 5 ==> is_run(#[trigger] runs[i]),
    ensures
        drive_check(
            name,
            path,
            CheckState { attempt: 1, last_error: Seq::empty(), stage: CheckStage::Running },
            seq![
                runs[0], CheckEventView::Slept, runs[1], CheckEventView::Slept, runs[2],
                CheckEventView::Slept, runs[3], CheckEventView::Slept, runs[4], CheckEventView::Slept,
            ],
            CheckActionView::RunVersionCheck,
        ) == CheckActionView::Done(check_rule(name, path, runs)),
{
    reveal_with_fuel(drive_check, 11);
    assert(is_run(runs[0]) && is_run(runs[1]) && is_run(runs[2]) && is_run(runs[3]) && is_run(runs[4]));
    let sl = CheckEventView::Slept;
    let a = seq![runs[0], sl, runs[1], sl, runs[2], sl, runs[3], sl, runs[4], sl];
    assert(a.drop_first() =~= seq![sl, runs[1], sl, runs[2], sl, runs[3], sl, runs[4], sl]);
    assert(a.drop_first().drop_first() =~= seq![runs[1], sl, runs[2], sl, runs[3], sl, runs[4], sl]);
    assert(a.drop_first().drop_first().drop_first() =~= seq![sl, runs[2], sl, runs[3], sl, runs[4], sl]);
    assert(a.drop_first().drop_first().drop_first().drop_first() =~= seq![runs[2], sl, runs[3], sl, runs[4], sl]);
    assert(a.drop_first().drop_first().drop_first().drop_first().drop_first() =~= seq![sl, runs[3], sl, runs[4], sl]);
    assert(a.drop_first().drop_first().drop_first().drop_first().drop_first().drop_first() =~= seq![runs[3], sl, runs[4], sl]);
    assert(a.drop_first().drop_first().drop_first().drop_first().drop_first().drop_first().drop_first() =~= seq![sl, runs[4], sl]);
    assert(a.drop_first().drop_first().drop_first().drop_first().drop_first().drop_first().drop_first().drop_first() =~= seq![runs[4], sl]);
    assert(a.drop_first().drop_first().drop_first().drop_first().drop_first().drop_first().drop_first().drop_first().drop_first() =~= seq![sl]);
    assert(a.drop_first().drop_first().drop_first().drop_first().drop_first().drop_first().drop_first().drop_first().drop_first().drop_first() =~= Seq::<CheckEventView>::empty());
}

/// The files wanted from the Linux `ffmpeg` archive.
#[derive(Debug, Clone, Copy, PartialEq, Eq, Structural)]
pub enum ArchiveTarget {
    Ffmpeg,
    Ffprobe,
    License,
    Readme,
}

/// Which wanted files have been written so far.
#[derive(Debug, Clone, Copy, PartialEq, Eq, Structural)]
pub struct ArchiveSelection {
    pub ffmpeg_written: bool,
    pub ffprobe_written: bool,
    pub license_written: bool,
    pub readme_written: bool,
}

/// The wanted file an archive entry at `path` is, if any: the first entry
/// ending in `/ffmpeg`, the first ending in `/ffprobe`, and, ignoring case,
/// the first ending in `/gplv3.txt` (the license) and in `/readme.txt`.
pub open spec fn archive_target_of(sel: ArchiveSelection, path: Seq<char>) -> Option<ArchiveTarget> {
    if ends_with(path, "/ffmpeg"@) && !sel.ffmpeg_written {
        Some(ArchiveTarget::Ffmpeg)
    } else if ends_with(path, "/ffprobe"@) && !sel.ffprobe_written {
        Some(ArchiveTarget::Ffprobe)
    } else if ends_with(lowercase(path), "/gplv3.txt"@) && !sel.license_written {
        Some(ArchiveTarget::License)
    } else if ends_with(lowercase(path), "/readme.txt"@) && !sel.readme_written {
        Some(ArchiveTarget::Readme)
    } else {
        None
    }
}

pub open spec fn mark_written(sel: ArchiveSelection, t: ArchiveTarget) -> ArchiveSelection {
    match t {
        ArchiveTarget::Ffmpeg => ArchiveSelection { ffmpeg_written: true, ..sel },
        ArchiveTarget::Ffprobe => ArchiveSelection { ffprobe_written: true, ..sel },
        ArchiveTarget::License => ArchiveSelection { license_written: true, ..sel },
        ArchiveTarget::Readme => ArchiveSelection { readme_written: true, ..sel },
    }
}

impl ArchiveSelection {
    /// Nothing written yet.
    pub fn new() -> (r: Self)
        ensures
            !r.ffmpeg_written && !r.ffprobe_written && !r.license_written && !r.readme_written,
    {
        ArchiveSelection {
            ffmpeg_written: false,
            ffprobe_written: false,
            license_written: false,
            readme_written: false,
        }
    }

    /// The wanted file the entry at `path` is, if it is one not yet written.
    pub fn target_for(&self, path: &str) -> (r: Option<ArchiveTarget>)
        ensures
            r == archive_target_of(*self, path@),
    {
        if !self.ffmpeg_written && crate::text::str_ends_with(path, "/ffmpeg") {
            return Some(ArchiveTarget::Ffmpeg);
        }
        if !self.ffprobe_written && crate::text::str_ends_with(path, "/ffprobe") {
            return Some(ArchiveTarget::Ffprobe);
        }
        let lower = crate::text::to_lowercase(path);
        if !self.license_written && crate::text::str_ends_with(lower.as_str(), "/gplv3.txt") {
            return Some(ArchiveTarget::License);
        }
        if !self.readme_written && crate::text::str_ends_with(lower.as_str(), "/readme.txt") {
            return Some(ArchiveTarget::Readme);
        }
        None
    }

    /// Records that `target` has been written.
    pub fn mark(&mut self, target: ArchiveTarget)
        ensures
            *final(self) == mark_written(*old(self), target),
    {
        match target {
            ArchiveTarget::Ffmpeg => self.ffmpeg_written = true,
            ArchiveTarget::Ffprobe => self.ffprobe_written = true,
            ArchiveTarget::License => self.license_written = true,
            ArchiveTarget::Readme => self.readme_written = true,
        }
    }

    /// After the last entry: both programs must have been found.
    pub fn finish(&self) -> (r: Result<(), DownloaderError>)
        ensures
            r is Ok <==> self.ffmpeg_written && self.ffprobe_written,
            r matches Err(e) ==> e is FfmpegUnavailable,
    {
        if !self.ffmpeg_written || !self.ffprobe_written {
            Err(DownloaderError::FfmpegUnavailable)
        } else {
            Ok(())
        }
    }
}

/// Whether a wanted file is a program (and must be made executable).
pub fn is_program(target: ArchiveTarget) -> (b: bool)
    ensures
        b <==> (target == ArchiveTarget::Ffmpeg || target == ArchiveTarget::Ffprobe),
{
    match target {
        ArchiveTarget::Ffmpeg | ArchiveTarget::Ffprobe => true,
        _ => false,
    }
}

/// Each wanted file is taken from the archive at most once: once written, no
/// later entry is chosen for it, and the others are chosen as before.
pub proof fn law_each_target_once(sel: ArchiveSelection, t: ArchiveTarget, path: Seq<char>)
    ensures
        archive_target_of(mark_written(sel, t), path) != Some(t),
        archive_target_of(sel, path) is None ==> archive_target_of(mark_written(sel, t), path) is None,
{
}

/// The error for a file missing from a zip archive.
pub open spec fn missing_member(wanted: Seq<char>) -> DownloaderErrorView {
    DownloaderErrorView::ProcessFailed("missing file in zip: "@ + wanted)
}

/// A program is tried five times, and each failure reason says which attempt
/// of the five it was, by its number written as one digit.
pub proof fn law_attempts_are_numbered(n: u32)
    requires
        1 <= n <= 5,
    ensures
        max_attempts() == 5,
        attempt_digit(n) as u32 == '0' as u32 + n,
        attempt_suffix(n) == " (attempt "@ + seq![attempt_digit(n)] + "/5): "@,
{
}

/// In the Linux archive, an entry `<dir>/ffmpeg` is taken as `ffmpeg` and
/// `<dir>/ffprobe` as `ffprobe` while not yet found; an entry whose path,
/// lowercased, ends in `/gplv3.txt` or `/readme.txt` is taken as the license
/// or the read-me while not yet found; a program already found is not taken again.
pub proof fn law_linux_entries_are_recognised(sel: ArchiveSelection, dir: Seq<char>, path: Seq<char>)
    ensures
        !sel.ffmpeg_written ==> archive_target_of(sel, dir + "/ffmpeg"@) == Some(ArchiveTarget::Ffmpeg),
        !sel.ffprobe_written ==> archive_target_of(
            sel,
            dir + "/ffprobe"@,
        ) == Some(ArchiveTarget::Ffprobe),
        !sel.license_written && !ends_with(path, "/ffmpeg"@) && !ends_with(path, "/ffprobe"@) && ends_with(
            lowercase(path),
            "/gplv3.txt"@,
        ) ==> archive_target_of(sel, path) == Some(ArchiveTarget::License),
        !sel.readme_written && !ends_with(path, "/ffmpeg"@) && !ends_with(path, "/ffprobe"@) && !ends_with(
            lowercase(path),
            "/gplv3.txt"@,
        ) && ends_with(lowercase(path), "/readme.txt"@) ==> archive_target_of(sel, path) == Some(
            ArchiveTarget::Readme,
        ),
        sel.ffmpeg_written && sel.ffprobe_written && sel.license_written && sel.readme_written
            ==> archive_target_of(sel, path) is None,
{
    crate::text::lemma_concat_ends(dir, "/ffmpeg"@);
    crate::text::lemma_concat_ends(dir, "/ffprobe"@);
    reveal_strlit("/ffmpeg");
    reveal_strlit("/ffprobe");
    let p = dir + "/ffprobe"@;
    if ends_with(p, "/ffmpeg"@) {
        assert(p.subrange(p.len() - 7, p.len() as int)[6] == p[p.len() - 1]);
        assert(p[p.len() - 1] == 'e');
    }
}

} // verus!
