use std::io::{Cursor, Write};

use pullyt::modules::downloader::domain::errors::DownloaderError;
use pullyt::modules::downloader::infrastructure::archives::{
    file_name_of_path, linux_suite_files, linux_suite_files_from, member_is_wanted,
    windows_suite_files, zip_member_ending_with, zip_member_named,
};
use pullyt::modules::downloader::infrastructure::ffmpeg_suite::ArchiveTarget;

fn tar_xz(entries: &[(&str, &[u8])]) -> Vec<u8> {
    let mut builder = tar::Builder::new(Vec::new());
    for (path, data) in entries {
        let mut header = tar::Header::new_gnu();
        header.set_size(data.len() as u64);
        header.set_mode(0o755);
        header.set_cksum();
        builder.append_data(&mut header, path, *data).unwrap();
    }
    let tar_bytes = builder.into_inner().unwrap();
    let mut encoder = xz2::write::XzEncoder::new(Vec::new(), 6);
    encoder.write_all(&tar_bytes).unwrap();
    encoder.finish().unwrap()
}

fn zip_of(entries: &[(&str, &[u8])]) -> Vec<u8> {
    let mut writer = zip::ZipWriter::new(Cursor::new(Vec::new()));
    let options = zip::write::FileOptions::default().compression_method(zip::CompressionMethod::Stored);
    for (name, data) in entries {
        writer.start_file(*name, options).unwrap();
        writer.write_all(data).unwrap();
    }
    writer.finish().unwrap().into_inner()
}

#[test]
fn linux_archive_keeps_first_of_each_wanted_file() {
    let archive = tar_xz(&[
        ("ffmpeg-7.0-amd64-static/manpages/ffmpeg.txt", b"man"),
        ("ffmpeg-7.0-amd64-static/ffmpeg", b"FFMPEG"),
        ("ffmpeg-7.0-amd64-static/GPLv3.txt", b"GPL"),
        ("ffmpeg-7.0-amd64-static/ffprobe", b"FFPROBE"),
        ("ffmpeg-7.0-amd64-static/other/ffmpeg", b"SECOND"),
        ("ffmpeg-7.0-amd64-static/README.TXT", b"README"),
    ]);
    let files = linux_suite_files(&archive).unwrap();
    assert_eq!(
        files,
        vec![
            (ArchiveTarget::Ffmpeg, b"FFMPEG".to_vec()),
            (ArchiveTarget::License, b"GPL".to_vec()),
            (ArchiveTarget::Ffprobe, b"FFPROBE".to_vec()),
            (ArchiveTarget::Readme, b"README".to_vec()),
        ]
    );
}

#[test]
fn linux_archive_without_ffprobe_is_unavailable() {
    let archive = tar_xz(&[("ffmpeg-7.0-amd64-static/ffmpeg", b"FFMPEG")]);
    assert!(matches!(linux_suite_files(&archive), Err(DownloaderError::FfmpegUnavailable)));
}

#[test]
fn linux_archive_that_cannot_be_read_fails() {
    assert!(matches!(linux_suite_files(b"not an archive"), Err(DownloaderError::ProcessFailed(_))));
    assert!(matches!(
        linux_suite_files_from(Err("broken".to_string())),
        Err(DownloaderError::ProcessFailed(m)) if m == "broken"
    ));
}

#[test]
fn windows_zip_gives_the_four_files_in_order() {
    let archive = zip_of(&[
        ("ffmpeg-6.1.1-essentials_build/README.txt", b"README"),
        ("ffmpeg-6.1.1-essentials_build/bin/ffplay.exe", b"FFPLAY"),
        ("ffmpeg-6.1.1-essentials_build/bin/ffprobe.exe", b"FFPROBE"),
        ("ffmpeg-6.1.1-essentials_build/bin/ffmpeg.exe", b"FFMPEG"),
        ("ffmpeg-6.1.1-essentials_build/LICENSE", b"LICENSE"),
    ]);
    let files = windows_suite_files(&archive).unwrap();
    assert_eq!(
        files,
        vec![
            (ArchiveTarget::Ffmpeg, b"FFMPEG".to_vec()),
            (ArchiveTarget::Ffprobe, b"FFPROBE".to_vec()),
            (ArchiveTarget::License, b"LICENSE".to_vec()),
            (ArchiveTarget::Readme, b"README".to_vec()),
        ]
    );
}

#[test]
fn windows_zip_missing_a_file_names_it() {
    let archive = zip_of(&[
        ("build/bin/ffmpeg.exe", b"FFMPEG"),
        ("build/bin/ffprobe.exe", b"FFPROBE"),
        ("build/LICENSE", b"LICENSE"),
    ]);
    assert!(matches!(
        windows_suite_files(&archive),
        Err(DownloaderError::ProcessFailed(m)) if m == "missing file in zip: README.txt"
    ));
    assert!(matches!(windows_suite_files(b"garbage"), Err(DownloaderError::ProcessFailed(_))));
}

#[test]
fn mac_zip_member_is_found_by_file_name() {
    let archive = zip_of(&[("ffmpeg.txt", b"TEXT"), ("dir/ffmpeg", b"FFMPEG"), ("ffmpeg", b"SECOND")]);
    assert_eq!(zip_member_named(&archive, "ffmpeg").unwrap(), b"FFMPEG".to_vec());
    assert!(matches!(
        zip_member_named(&archive, "ffprobe"),
        Err(DownloaderError::ProcessFailed(m)) if m == "missing file in zip: ffprobe"
    ));
}

/// A zip whose member `marked` carries an AES extra field while its
/// encrypted flag is clear.
fn zip_with_aes_marked(entries: &[(&str, &[u8])], marked: &str) -> Vec<u8> {
    let mut writer = zip::ZipWriter::new(Cursor::new(Vec::new()));
    let options = zip::write::FileOptions::default().compression_method(zip::CompressionMethod::Stored);
    for (name, data) in entries {
        if *name == marked {
            writer.start_file_with_extra_data(*name, options).unwrap();
            writer.write_all(&[0x77, 0x77, 7, 0, 1, 0, 0x41, 0x45, 1, 0, 0]).unwrap();
            writer.end_extra_data().unwrap();
        } else {
            writer.start_file(*name, options).unwrap();
        }
        writer.write_all(data).unwrap();
    }
    let mut bytes = writer.finish().unwrap().into_inner();
    let mut i = 0;
    while i + 4 <= bytes.len() {
        if bytes[i..i + 4] == [0x77, 0x77, 7, 0] {
            bytes[i] = 0x01;
            bytes[i + 1] = 0x99;
        }
        i += 1;
    }
    bytes
}

#[test]
fn aes_marked_member_is_an_error_not_a_crash() {
    let archive = zip_with_aes_marked(&[("odd", b"X"), ("dir/ffmpeg", b"FFMPEG")], "odd");
    assert!(matches!(
        zip_member_named(&archive, "ffmpeg"),
        Err(DownloaderError::ProcessFailed(m)) if m == "invalid password for file in archive"
    ));
}

#[test]
fn members_after_the_wanted_one_are_not_read() {
    let archive = zip_with_aes_marked(&[("dir/ffmpeg", b"FFMPEG"), ("odd", b"X")], "odd");
    assert_eq!(zip_member_named(&archive, "ffmpeg").unwrap(), b"FFMPEG".to_vec());
    assert_eq!(zip_member_ending_with(&archive, "ffmpeg").unwrap(), b"FFMPEG".to_vec());
}

#[test]
fn wanted_members_by_suffix_or_file_name() {
    assert!(member_is_wanted("bin/ffmpeg.exe", "ffmpeg.exe", false));
    assert!(member_is_wanted("bin/xffmpeg.exe", "ffmpeg.exe", false));
    assert!(!member_is_wanted("bin/xffmpeg", "ffmpeg", true));
    assert!(member_is_wanted("bin/ffmpeg/", "ffmpeg", true));
    assert!(!member_is_wanted("bin/ffmpeg.exe", "ffmpeg", true));
}

#[test]
fn file_names_follow_path_rules() {
    assert_eq!(file_name_of_path("ffmpeg"), "ffmpeg");
    assert_eq!(file_name_of_path("a/b/ffmpeg"), "ffmpeg");
    assert_eq!(file_name_of_path("a/b/"), "b");
    assert_eq!(file_name_of_path("a//b"), "b");
    assert_eq!(file_name_of_path("a/./"), "a");
    assert_eq!(file_name_of_path("./x"), "x");
    assert_eq!(file_name_of_path("a/.."), "");
    assert_eq!(file_name_of_path("."), "");
    assert_eq!(file_name_of_path("/"), "");
    assert_eq!(file_name_of_path(""), "");
}
