use std::sync::Arc;

use pullyt::modules::downloader::application::use_cases::{update_status_from, CheckForUpdatesUseCase};
use pullyt::modules::downloader::domain::entities::{ReleaseInfo, UpdateStatus};
use pullyt::modules::downloader::domain::errors::DownloaderError;
use pullyt::modules::downloader::domain::ports::ReleasePort;
use pullyt::modules::downloader::domain::version::{is_newer_version, parse_version_numbers};

struct StubRelease {
    result: Result<ReleaseInfo, DownloaderError>,
}

impl ReleasePort for StubRelease {
    fn fetch_latest_release(&self) -> Result<ReleaseInfo, DownloaderError> {
        match &self.result {
            Ok(info) => Ok(info.clone()),
            Err(err) => Err(err.clone()),
        }
    }
}

#[test]
fn returns_update_available_for_newer_version() {
    let port = StubRelease {
        result: Ok(ReleaseInfo {
            version: "1.1.0".to_string(),
            url: "https://example.com/release".to_string(),
        }),
    };

    let use_case = CheckForUpdatesUseCase::new(Arc::new(port), "1.0.0".to_string());
    let status = use_case.execute();

    assert!(matches!(status, UpdateStatus::UpdateAvailable(info) if info.version == "1.1.0"));
}

#[test]
fn returns_up_to_date_for_equal_version() {
    let port = StubRelease {
        result: Ok(ReleaseInfo {
            version: "v1.0.0".to_string(),
            url: "https://example.com/release".to_string(),
        }),
    };

    let use_case = CheckForUpdatesUseCase::new(Arc::new(port), "1.0.0".to_string());
    let status = use_case.execute();

    assert!(matches!(status, UpdateStatus::UpToDate));
}

#[test]
fn returns_up_to_date_when_release_fetch_fails() {
    let port = StubRelease {
        result: Err(DownloaderError::ReleaseCheckFailed("timeout".to_string())),
    };

    let use_case = CheckForUpdatesUseCase::new(Arc::new(port), "1.0.0".to_string());
    let status = use_case.execute();

    assert!(matches!(status, UpdateStatus::UpToDate));
}

fn release(version: &str) -> ReleaseInfo {
    ReleaseInfo { version: version.to_string(), url: "https://example.com/r".to_string() }
}

#[test]
fn older_release_is_not_offered() {
    let status = update_status_from("2.0.0", Ok(release("1.9.9")));
    assert!(matches!(status, UpdateStatus::UpToDate));
}

#[test]
fn offered_release_keeps_its_page() {
    let status = update_status_from("0.9.0", Ok(release("v1.0.0")));
    match status {
        UpdateStatus::UpdateAvailable(info) => {
            assert_eq!(info.version, "v1.0.0");
            assert_eq!(info.url, "https://example.com/r");
        }
        UpdateStatus::UpToDate => panic!("expected an update"),
    }
}

#[test]
fn versions_compare_as_numbers() {
    assert!(is_newer_version("1.10.0", "1.9.0"));
    assert!(!is_newer_version("1.9.0", "1.10.0"));
    assert!(is_newer_version("2", "1.99.99"));
    assert!(is_newer_version("v0.0.1", "0.0.0"));
}

#[test]
fn trailing_zero_parts_do_not_count() {
    assert!(!is_newer_version("1.0", "1.0.0"));
    assert!(!is_newer_version("1.0.0", "1.0"));
    assert!(is_newer_version("1.0.1", "1.0"));
}

#[test]
fn version_is_not_newer_than_itself() {
    assert!(!is_newer_version("3.2.1", "3.2.1"));
    assert!(!is_newer_version("v3.2.1", "3.2.1"));
}

#[test]
fn malformed_versions_are_never_newer() {
    assert!(!is_newer_version("1.2.x", "1.0.0"));
    assert!(!is_newer_version("1..2", "1.0.0"));
    assert!(!is_newer_version("", "1.0.0"));
    assert!(!is_newer_version("2.0.0", "dev"));
    assert!(!is_newer_version("99999999999999999999", "1"));
}

#[test]
fn parses_version_numbers() {
    assert_eq!(parse_version_numbers("v1.20.3"), Some(vec![1, 20, 3]));
    assert_eq!(parse_version_numbers("18446744073709551615"), Some(vec![u64::MAX]));
    assert_eq!(parse_version_numbers("1.2."), None);
    assert_eq!(parse_version_numbers("vv1"), None);
}
