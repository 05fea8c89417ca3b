use pullyt::modules::downloader::domain::errors::DownloaderError;
use pullyt::modules::downloader::infrastructure::dependencies::Tool;
use pullyt::modules::downloader::infrastructure::ffmpeg_suite::{
    is_program, ArchiveSelection, ArchiveTarget,
    BinaryCheck, CheckAction, CheckEvent, SuiteAction, SuiteEvent, SuiteInstall,
};

#[test]
fn nothing_to_do_when_both_present() {
    let (mut s, a) = SuiteInstall::start(true);
    assert!(matches!(a, SuiteAction::CheckFiles));
    assert!(matches!(s.advance(SuiteEvent::FilesPresent { ffmpeg: true, ffprobe: true }), SuiteAction::Done(Ok(()))));
}

#[test]
fn full_installation() {
    let (mut s, _) = SuiteInstall::start(true);
    assert!(matches!(s.advance(SuiteEvent::FilesPresent { ffmpeg: true, ffprobe: false }), SuiteAction::CreateBinDir));
    assert!(matches!(s.advance(SuiteEvent::DirCreated(Ok(()))), SuiteAction::InstallArchive));
    assert!(matches!(s.advance(SuiteEvent::ArchiveInstalled(Ok(()))), SuiteAction::CheckFiles));
    assert!(matches!(s.advance(SuiteEvent::FilesPresent { ffmpeg: true, ffprobe: true }), SuiteAction::ValidateBinary(Tool::Ffmpeg)));
    assert!(matches!(s.advance(SuiteEvent::Validated(Ok(()))), SuiteAction::ValidateBinary(Tool::Ffprobe)));
    assert!(matches!(s.advance(SuiteEvent::Validated(Ok(()))), SuiteAction::Done(Ok(()))));
}

#[test]
fn directory_error_is_reported() {
    let (mut s, _) = SuiteInstall::start(true);
    s.advance(SuiteEvent::FilesPresent { ffmpeg: false, ffprobe: false });
    assert!(matches!(s.advance(SuiteEvent::DirCreated(Err("denied".to_string()))),
        SuiteAction::Done(Err(DownloaderError::ProcessFailed(m))) if m == "denied"));
}

#[test]
fn no_installer_means_unavailable() {
    let (mut s, _) = SuiteInstall::start(false);
    s.advance(SuiteEvent::FilesPresent { ffmpeg: false, ffprobe: false });
    assert!(matches!(s.advance(SuiteEvent::DirCreated(Ok(()))), SuiteAction::CheckFiles));
    assert!(matches!(s.advance(SuiteEvent::FilesPresent { ffmpeg: false, ffprobe: false }),
        SuiteAction::Done(Err(DownloaderError::FfmpegUnavailable))));
}

#[test]
fn binary_check_succeeds_on_second_try() {
    let (mut c, a) = BinaryCheck::start("ffmpeg".to_string(), "/h/ffmpeg".to_string());
    assert!(matches!(a, CheckAction::RunVersionCheck));
    let a = c.advance(CheckEvent::Exited { success: false, status: "exit status: 1".to_string(), stderr: " busy \n".to_string() });
    assert!(matches!(a, CheckAction::Sleep(250)));
    assert!(matches!(c.advance(CheckEvent::Slept), CheckAction::RunVersionCheck));
    assert!(matches!(c.advance(CheckEvent::Exited { success: true, status: String::new(), stderr: String::new() }), CheckAction::Done(Ok(()))));
}

#[test]
fn binary_check_gives_up_after_five() {
    let (mut c, _) = BinaryCheck::start("ffprobe".to_string(), "/h/ffprobe".to_string());
    let mut runs = 1;
    loop {
        let a = c.advance(CheckEvent::FailedToRun { error: "not found".to_string() });
        assert!(matches!(a, CheckAction::Sleep(250)));
        match c.advance(CheckEvent::Slept) {
            CheckAction::RunVersionCheck => runs += 1,
            CheckAction::Done(Err(DownloaderError::ProcessFailed(m))) => {
                assert_eq!(m, "failed to run ffprobe at /h/ffprobe (attempt 5/5): not found");
                break;
            }
            other => panic!("unexpected {:?}", other),
        }
    }
    assert_eq!(runs, 5);
}

#[test]
fn exit_failure_reason() {
    let (mut c, _) = BinaryCheck::start("ffmpeg".to_string(), "/h/ffmpeg".to_string());
    for _ in 0..4 {
        c.advance(CheckEvent::FailedToRun { error: "x".to_string() });
        c.advance(CheckEvent::Slept);
    }
    c.advance(CheckEvent::Exited { success: false, status: "exit status: 2".to_string(), stderr: "  bad lib\n".to_string() });
    assert!(matches!(c.advance(CheckEvent::Slept),
        CheckAction::Done(Err(DownloaderError::ProcessFailed(m))) if m == "ffmpeg -version exited with exit status: 2 (attempt 5/5): bad lib"));
}

#[test]
fn archive_entries_are_picked_once() {
    let mut sel = ArchiveSelection::new();
    assert_eq!(sel.target_for("ffmpeg-7.0-amd64-static/ffmpeg"), Some(ArchiveTarget::Ffmpeg));
    sel.mark(ArchiveTarget::Ffmpeg);
    assert_eq!(sel.target_for("other/ffmpeg"), None);
    assert_eq!(sel.target_for("ffmpeg-7.0-amd64-static/ffprobe"), Some(ArchiveTarget::Ffprobe));
    assert_eq!(sel.target_for("ffmpeg-7.0-amd64-static/GPLv3.txt"), Some(ArchiveTarget::License));
    assert_eq!(sel.target_for("ffmpeg-7.0-amd64-static/README.TXT"), Some(ArchiveTarget::Readme));
    assert_eq!(sel.target_for("ffmpeg-7.0-amd64-static/model/x.model"), None);
    assert_eq!(sel.target_for("ffmpeg"), None);
    assert!(matches!(sel.finish(), Err(DownloaderError::FfmpegUnavailable)));
    sel.mark(ArchiveTarget::Ffprobe);
    assert!(sel.finish().is_ok());
    assert!(is_program(ArchiveTarget::Ffprobe));
    assert!(!is_program(ArchiveTarget::License));
}
