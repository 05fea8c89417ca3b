//! The decisions of finding a tool, as a state machine the caller drives:
//! it performs each requested action and hands back what happened.
//!
//! `yt-dlp`: the system command if it works, else an installed local copy,
//! else install one and look again (command first, then local copy).
//! `ffmpeg` / `ffprobe`: the system command if it works, else install the
//! local suite and use the local copy if it is there.
use vstd::prelude::*;

use crate::modules::downloader::domain::errors::{DownloaderError, DownloaderErrorView};
use super::dependencies::{command_choice, string_result_view, tool_stem, unit_result_view, Tool};

verus! {

/// Where a lookup stands.
#[derive(Debug, Clone, Copy, PartialEq, Eq, Structural)]
pub enum LookupStage {
    /// Waiting for the version probe of the system command.
    Probe { after_install: bool },
    /// Waiting to hear whether the local copy exists.
    LocalCheck { after_install: bool },
    /// Waiting for the installation to end.
    Install,
    /// The answer has been given.
    Finished,
}

/// What the caller is asked to do next.
#[derive(Debug)]
pub enum LookupAction {
    /// Run the tool's system command with its version flag.
    RunVersionProbe,
    /// Check whether the local copy's file exists.
    CheckLocalFile,
    /// Install the local copy (for `ffmpeg` and `ffprobe`: the whole suite).
    Install,
    /// The lookup is over: where the tool is, or why it cannot be had.
    Done(Result<String, DownloaderError>),
}

pub enum LookupActionView {
    RunVersionProbe,
    CheckLocalFile,
    Install,
    Done(Result<Seq<char>, DownloaderErrorView>),
}

impl View for LookupAction {
    type V = LookupActionView;

    open spec fn view(&self) -> LookupActionView {
        match self {
            LookupAction::RunVersionProbe => LookupActionView::RunVersionProbe,
            LookupAction::CheckLocalFile => LookupActionView::CheckLocalFile,
            LookupAction::Install => LookupActionView::Install,
            LookupAction::Done(r) => LookupActionView::Done(string_result_view(*r)),
        }
    }
}

/// What happened when the caller performed the last action.
#[derive(Debug)]
pub enum LookupEvent {
    ProbeSucceeded(bool),
    LocalFileExists(bool),
    Installed(Result<(), DownloaderError>),
}

pub enum LookupEventView {
    ProbeSucceeded(bool),
    LocalFileExists(bool),
    Installed(Result<(), DownloaderErrorView>),
}

impl View for LookupEvent {
    type V = LookupEventView;

    open spec fn view(&self) -> LookupEventView {
        match self {
            LookupEvent::ProbeSucceeded(b) => LookupEventView::ProbeSucceeded(*b),
            LookupEvent::LocalFileExists(b) => LookupEventView::LocalFileExists(*b),
            LookupEvent::Installed(r) => LookupEventView::Installed(unit_result_view(*r)),
        }
    }
}

/// The error for a tool that could not be found or installed.
pub open spec fn unavailable(tool: Tool) -> DownloaderErrorView {
    match tool {
        Tool::YtDlp => DownloaderErrorView::YtDlpUnavailable,
        Tool::Ffmpeg => DownloaderErrorView::FfmpegUnavailable,
        Tool::Ffprobe => DownloaderErrorView::FfprobeUnavailable,
    }
}

fn unavailable_error(tool: Tool) -> (e: DownloaderError)
    ensures
        e@ == unavailable(tool),
{
    match tool {
        Tool::YtDlp => DownloaderError::YtDlpUnavailable,
        Tool::Ffmpeg => DownloaderError::FfmpegUnavailable,
        Tool::Ffprobe => DownloaderError::FfprobeUnavailable,
    }
}

/// The action a stage waits on (repeated when an event does not fit it).
pub open spec fn pending_action(stage: LookupStage) -> LookupActionView {
    match stage {
        LookupStage::Probe { .. } => LookupActionView::RunVersionProbe,
        LookupStage::LocalCheck { .. } => LookupActionView::CheckLocalFile,
        LookupStage::Install => LookupActionView::Install,
        LookupStage::Finished => LookupActionView::Done(Err(DownloaderErrorView::ProcessFailed(
            "tool lookup already finished"@,
        ))),
    }
}

/// One step of a lookup: the next stage and the next action.
pub open spec fn lookup_step(tool: Tool, local_path: Seq<char>, stage: LookupStage, event: LookupEventView) -> (
    LookupStage,
    LookupActionView,
) {
    match (stage, event) {
        (LookupStage::Probe { after_install }, LookupEventView::ProbeSucceeded(works)) => {
            if works {
                (LookupStage::Finished, LookupActionView::Done(Ok(tool_stem(tool))))
            } else if tool == Tool::YtDlp {
                (LookupStage::LocalCheck { after_install }, LookupActionView::CheckLocalFile)
            } else if !after_install {
                (LookupStage::Install, LookupActionView::Install)
            } else {
                (LookupStage::Finished, LookupActionView::Done(Err(unavailable(tool))))
            }
        },
        (LookupStage::LocalCheck { after_install }, LookupEventView::LocalFileExists(exists)) => {
            if exists {
                (LookupStage::Finished, LookupActionView::Done(Ok(local_path)))
            } else if !after_install {
                (LookupStage::Install, LookupActionView::Install)
            } else {
                (LookupStage::Finished, LookupActionView::Done(Err(unavailable(tool))))
            }
        },
        (LookupStage::Install, LookupEventView::Installed(r)) => match r {
            Err(e) => (LookupStage::Finished, LookupActionView::Done(Err(e))),
            Ok(()) => if tool == Tool::YtDlp {
                (LookupStage::Probe { after_install: true }, LookupActionView::RunVersionProbe)
            } else {
                (LookupStage::LocalCheck { after_install: true }, LookupActionView::CheckLocalFile)
            },
        },
        _ => (stage, pending_action(stage)),
    }
}

/// A lookup in progress.
pub struct ToolLookup {
    tool: Tool,
    local_path: String,
    stage: LookupStage,
}

impl ToolLookup {
    pub closed spec fn tool(&self) -> Tool {
        self.tool
    }

    pub closed spec fn local_path(&self) -> Seq<char> {
        self.local_path@
    }

    pub closed spec fn stage(&self) -> LookupStage {
        self.stage
    }

    /// Starts looking for `tool`, whose local copy would be at `local_path`;
    /// the first action is always the version probe.
    pub fn start(tool: Tool, local_path: String) -> (r: (ToolLookup, LookupAction))
        ensures
            r.0.tool() == tool,
            r.0.local_path() == local_path@,
            r.0.stage() == (LookupStage::Probe { after_install: false }),
            r.1@ == LookupActionView::RunVersionProbe,
    {
        (
            ToolLookup { tool, local_path, stage: LookupStage::Probe { after_install: false } },
            LookupAction::RunVersionProbe,
        )
    }

    /// Hands back what happened and gets the next action.
    pub fn advance(&mut self, event: LookupEvent) -> (a: LookupAction)
        ensures
            final(self).tool() == old(self).tool(),
            final(self).local_path() == old(self).local_path(),
            (final(self).stage(), a@) == lookup_step(
                old(self).tool(),
                old(self).local_path(),
                old(self).stage(),
                event@,
            ),
    {
        let tool = self.tool;
        match (self.stage, event) {
            (LookupStage::Probe { after_install }, LookupEvent::ProbeSucceeded(works)) => {
                if works {
                    self.stage = LookupStage::Finished;
                    LookupAction::Done(Ok(super::dependencies::tool_command(tool).to_owned()))
                } else if tool == Tool::YtDlp {
                    self.stage = LookupStage::LocalCheck { after_install };
                    LookupAction::CheckLocalFile
                } else if !after_install {
                    self.stage = LookupStage::Install;
                    LookupAction::Install
                } else {
                    self.stage = LookupStage::Finished;
                    LookupAction::Done(Err(unavailable_error(tool)))
                }
            },
            (LookupStage::LocalCheck { after_install }, LookupEvent::LocalFileExists(exists)) => {
                if exists {
                    self.stage = LookupStage::Finished;
                    LookupAction::Done(Ok(self.local_path.clone()))
                } else if !after_install {
                    self.stage = LookupStage::Install;
                    LookupAction::Install
                } else {
                    self.stage = LookupStage::Finished;
                    LookupAction::Done(Err(unavailable_error(tool)))
                }
            },
            (LookupStage::Install, LookupEvent::Installed(r)) => match r {
                Err(e) => {
                    self.stage = LookupStage::Finished;
                    LookupAction::Done(Err(e))
                },
                Ok(()) => if tool == Tool::YtDlp {
                    self.stage = LookupStage::Probe { after_install: true };
                    LookupAction::RunVersionProbe
                } else {
                    self.stage = LookupStage::LocalCheck { after_install: true };
                    LookupAction::CheckLocalFile
                },
            },
            (stage, _) => match stage {
                LookupStage::Probe { .. } => LookupAction::RunVersionProbe,
                LookupStage::LocalCheck { .. } => LookupAction::CheckLocalFile,
                LookupStage::Install => LookupAction::Install,
                LookupStage::Finished => LookupAction::Done(
                    Err(DownloaderError::ProcessFailed("tool lookup already finished".to_owned())),
                ),
            },
        }
    }
}

/// How far a lookup has come; every answered action moves it forward.
pub open spec fn lookup_rank(stage: LookupStage) -> nat {
    match stage {
        LookupStage::Probe { after_install: false } => 0,
        LookupStage::LocalCheck { after_install: false } => 1,
        LookupStage::Install => 2,
        LookupStage::Probe { after_install: true } => 3,
        LookupStage::LocalCheck { after_install: true } => 4,
        LookupStage::Finished => 5,
    }
}

/// The event that answers the action a stage waits on.
pub open spec fn answers(stage: LookupStage, event: LookupEventView) -> bool {
    match (stage, event) {
        (LookupStage::Probe { .. }, LookupEventView::ProbeSucceeded(_)) => true,
        (LookupStage::LocalCheck { .. }, LookupEventView::LocalFileExists(_)) => true,
        (LookupStage::Install, LookupEventView::Installed(_)) => true,
        _ => false,
    }
}

/// Each answered action moves a lookup strictly forward, so a lookup ends
/// after at most five answers; a lookup asks for an installation at most once.
pub proof fn law_lookup_moves_forward(tool: Tool, local_path: Seq<char>, stage: LookupStage, event: LookupEventView)
    requires
        answers(stage, event),
    ensures
        lookup_rank(lookup_step(tool, local_path, stage, event).0) > lookup_rank(stage),
        lookup_step(tool, local_path, stage, event).1 is Install ==> lookup_rank(stage) < 2,
{
}

/// A lookup ends with the system command or the local copy, or with an error.
pub proof fn law_lookup_answers(tool: Tool, local_path: Seq<char>, stage: LookupStage, event: LookupEventView)
    requires
        answers(stage, event),
    ensures
        lookup_step(tool, local_path, stage, event).1 matches LookupActionView::Done(Ok(p)) ==> (p
            == tool_stem(tool) || p == local_path),
        lookup_step(tool, local_path, stage, event).1 is Done <==> lookup_step(tool, local_path, stage, event).0 is Finished,
{
}

/// A system command that works is used at once, before any local copy is looked at.
pub proof fn law_working_command_first(tool: Tool, local_path: Seq<char>)
    ensures
        lookup_step(
            tool,
            local_path,
            LookupStage::Probe { after_install: false },
            LookupEventView::ProbeSucceeded(true),
        ).1 == LookupActionView::Done(Ok(tool_stem(tool))),
{
}


/// Feeds the answers of one whole lookup to the machine, each only while the
/// lookup is still going, and gives its final action.
pub open spec fn run_lookup(
    tool: Tool,
    local_path: Seq<char>,
    probe: bool,
    local_exists: bool,
    installed: Result<(), DownloaderErrorView>,
    probe_again: bool,
    local_exists_again: bool,
) -> LookupActionView {
    let answers = seq![
        LookupEventView::ProbeSucceeded(probe),
        LookupEventView::LocalFileExists(local_exists),
        LookupEventView::Installed(installed),
        LookupEventView::ProbeSucceeded(probe_again),
        LookupEventView::LocalFileExists(local_exists_again),
    ];
    drive_lookup(tool, local_path, LookupStage::Probe { after_install: false }, answers, LookupActionView::RunVersionProbe)
}

/// Answers each action the machine asks for with the first event in `answers`
/// of the matching kind; stops at `Done`.
pub open spec fn drive_lookup(
    tool: Tool,
    local_path: Seq<char>,
    stage: LookupStage,
    answers: Seq<LookupEventView>,
    action: LookupActionView,
) -> LookupActionView
    decreases answers.len(),
{
    if action is Done || answers.len() == 0 {
        action
    } else if answers_action(action, answers[0]) {
        let (next, a) = lookup_step(tool, local_path, stage, answers[0]);
        drive_lookup(tool, local_path, next, answers.drop_first(), a)
    } else {
        drive_lookup(tool, local_path, stage, answers.drop_first(), action)
    }
}

pub open spec fn answers_action(action: LookupActionView, event: LookupEventView) -> bool {
    match (action, event) {
        (LookupActionView::RunVersionProbe, LookupEventView::ProbeSucceeded(_)) => true,
        (LookupActionView::CheckLocalFile, LookupEventView::LocalFileExists(_)) => true,
        (LookupActionView::Install, LookupEventView::Installed(_)) => true,
        _ => false,
    }
}

/// How `yt-dlp` is found, step by step: the system command if it works; else
/// the local copy if it exists; else it is installed (an installation error
/// is the answer), and then the system command or the local copy, if either
/// is now there.
pub open spec fn yt_dlp_rule(
    local_path: Seq<char>,
    probe: bool,
    local_exists: bool,
    installed: Result<(), DownloaderErrorView>,
    probe_again: bool,
    local_exists_again: bool,
) -> Result<Seq<char>, DownloaderErrorView> {
    if probe {
        Ok("yt-dlp"@)
    } else if local_exists {
        Ok(local_path)
    } else {
        match installed {
            Err(e) => Err(e),
            Ok(()) => if probe_again {
                Ok("yt-dlp"@)
            } else if local_exists_again {
                Ok(local_path)
            } else {
                Err(DownloaderErrorView::YtDlpUnavailable)
            },
        }
    }
}

/// How `ffmpeg` or `ffprobe` is found: the system command if it works; else
/// the local suite is installed (its error is the answer), and the local copy
/// is used if it is there.
pub open spec fn ffmpeg_tool_rule(
    tool: Tool,
    local_path: Seq<char>,
    probe: bool,
    installed: Result<(), DownloaderErrorView>,
    local_exists_after: bool,
) -> Result<Seq<char>, DownloaderErrorView> {
    if probe {
        Ok(tool_stem(tool))
    } else {
        match installed {
            Err(e) => Err(e),
            Ok(()) => if local_exists_after {
                Ok(local_path)
            } else {
                Err(unavailable(tool))
            },
        }
    }
}

/// Driven through a whole lookup, the machine answers what the step-by-step
/// rules say, for `yt-dlp` and for each `ffmpeg` tool.
pub proof fn law_lookup_follows_rule(
    tool: Tool,
    local_path: Seq<char>,
    probe: bool,
    local_exists: bool,
    installed: Result<(), DownloaderErrorView>,
    probe_again: bool,
    local_exists_again: bool,
)
    ensures
        tool == Tool::YtDlp ==> run_lookup(tool, local_path, probe, local_exists, installed, probe_again, local_exists_again)
            == LookupActionView::Done(yt_dlp_rule(local_path, probe, local_exists, installed, probe_again, local_exists_again)),
        tool != Tool::YtDlp ==> run_lookup(tool, local_path, probe, local_exists, installed, probe_again, local_exists_again)
            == LookupActionView::Done(ffmpeg_tool_rule(tool, local_path, probe, installed, local_exists_again)),
{
    reveal_with_fuel(drive_lookup, 6);
    let answers = seq![
        LookupEventView::ProbeSucceeded(probe),
        LookupEventView::LocalFileExists(local_exists),
        LookupEventView::Installed(installed),
        LookupEventView::ProbeSucceeded(probe_again),
        LookupEventView::LocalFileExists(local_exists_again),
    ];
    assert(answers.drop_first() == seq![
        LookupEventView::LocalFileExists(local_exists),
        LookupEventView::Installed(installed),
        LookupEventView::ProbeSucceeded(probe_again),
        LookupEventView::LocalFileExists(local_exists_again),
    ]);
    assert(answers.drop_first().drop_first() == seq![
        LookupEventView::Installed(installed),
        LookupEventView::ProbeSucceeded(probe_again),
        LookupEventView::LocalFileExists(local_exists_again),
    ]);
    assert(answers.drop_first().drop_first().drop_first() == seq![
        LookupEventView::ProbeSucceeded(probe_again),
        LookupEventView::LocalFileExists(local_exists_again),
    ]);
    assert(answers.drop_first().drop_first().drop_first().drop_first() == seq![
        LookupEventView::LocalFileExists(local_exists_again),
    ]);
    assert(answers.drop_first().drop_first().drop_first().drop_first().drop_first() == Seq::<LookupEventView>::empty());
}

/// Whether the last probe of the system `yt-dlp` a lookup made succeeded: the
/// first probe, unless the lookup went on to install, then the probe after it.
pub open spec fn last_yt_dlp_probe(probe: bool, local_exists: bool, probe_again: bool) -> bool {
    if probe || local_exists {
        probe
    } else {
        probe_again
    }
}

/// The command the downloader runs `yt-dlp` by agrees with what the `yt-dlp`
/// lookup answered, as long as the system command still works exactly when
/// the lookup's last probe said so.
pub proof fn law_command_agrees_with_lookup(
    local_path: Seq<char>,
    probe: bool,
    local_exists: bool,
    installed: Result<(), DownloaderErrorView>,
    probe_again: bool,
    local_exists_again: bool,
)
    requires
        yt_dlp_rule(local_path, probe, local_exists, installed, probe_again, local_exists_again) is Ok,
    ensures
        yt_dlp_rule(local_path, probe, local_exists, installed, probe_again, local_exists_again)->Ok_0
            == command_choice(last_yt_dlp_probe(probe, local_exists, probe_again), local_path),
{
}

/// A tool that cannot be had is reported as that tool being unavailable.
pub proof fn law_unavailable_names_the_tool()
    ensures
        unavailable(Tool::YtDlp) == DownloaderErrorView::YtDlpUnavailable,
        unavailable(Tool::Ffmpeg) == DownloaderErrorView::FfmpegUnavailable,
        unavailable(Tool::Ffprobe) == DownloaderErrorView::FfprobeUnavailable,
{
}

} // verus!
