//! Reading the downloaded `ffmpeg` archives: which of their members are kept,
//! and as which file. Writing the files is left to the caller.
use vstd::prelude::*;

use crate::modules::downloader::domain::errors::{DownloaderError, DownloaderErrorView};
use crate::text::ends_with;
use super::ffmpeg_suite::{
    archive_target_of, mark_written, missing_member, ArchiveSelection, ArchiveTarget,
};

verus! {

/// An archive's members as (path, contents), in archive order.
pub open spec fn member_seq(v: Seq<(String, Vec<u8>)>) -> Seq<(Seq<char>, Seq<u8>)> {
    v.map_values(|m: (String, Vec<u8>)| (m.0@, m.1@))
}

/// Model of an archive read: its members, or the text of the error it stopped at.
pub open spec fn members_view(r: Result<Vec<(String, Vec<u8>)>, String>) -> Result<
    Seq<(Seq<char>, Seq<u8>)>,
    Seq<char>,
> {
    match r {
        Ok(v) => Ok(member_seq(v@)),
        Err(e) => Err(e@),
    }
}

/// The kept files as (which file, contents), in order.
pub open spec fn file_seq(v: Seq<(ArchiveTarget, Vec<u8>)>) -> Seq<(ArchiveTarget, Seq<u8>)> {
    v.map_values(|f: (ArchiveTarget, Vec<u8>)| (f.0, f.1@))
}

pub open spec fn files_view(r: Result<Vec<(ArchiveTarget, Vec<u8>)>, DownloaderError>) -> Result<
    Seq<(ArchiveTarget, Seq<u8>)>,
    DownloaderErrorView,
> {
    match r {
        Ok(v) => Ok(file_seq(v@)),
        Err(e) => Err(e@),
    }
}

/// What reading an xz-compressed tar archive gives: its members, or the text
/// of the error that reading stopped at.
pub uninterp spec fn tar_xz_members(archive: Seq<u8>) -> Result<Seq<(Seq<char>, Seq<u8>)>, Seq<char>>;

/// `tar::Archive::entries` over an `xz2::read::XzDecoder` of the bytes: for
/// each entry in turn its path (`Entry::path_bytes`, read as UTF-8 with invalid
/// sequences replaced) and its contents (`Read::read_to_end`); the first error
/// ends the reading with its text. The claim is only that the result is a
/// function of the bytes, named `tar_xz_members`.
#[verifier::external_body]
fn read_tar_xz(archive: &[u8]) -> (r: Result<Vec<(String, Vec<u8>)>, String>)
    ensures
        members_view(r) == tar_xz_members(archive@),
{
    let mut tar = tar::Archive::new(xz2::read::XzDecoder::new(archive));
    let mut out = Vec::new();
    for entry in tar.entries().map_err(|e| e.to_string())? {
        let mut entry = entry.map_err(|e| e.to_string())?;
        let path = String::from_utf8_lossy(&entry.path_bytes()).into_owned();
        let mut data = Vec::new();
        std::io::Read::read_to_end(&mut entry, &mut data).map_err(|e| e.to_string())?;
        out.push((path, data));
    }
    Ok(out)
}

pub open spec fn nothing_written() -> ArchiveSelection {
    ArchiveSelection {
        ffmpeg_written: false,
        ffprobe_written: false,
        license_written: false,
        readme_written: false,
    }
}

/// Going through the members in order: the files kept so far, and which have
/// been found. A member is kept as the file `archive_target_of` names for it,
/// given those found before it.
pub open spec fn chosen_files(members: Seq<(Seq<char>, Seq<u8>)>) -> (
    Seq<(ArchiveTarget, Seq<u8>)>,
    ArchiveSelection,
)
    decreases members.len(),
{
    if members.len() == 0 {
        (Seq::empty(), nothing_written())
    } else {
        let (files, sel) = chosen_files(members.drop_last());
        let m = members.last();
        match archive_target_of(sel, m.0) {
            Some(t) => (files.push((t, m.1)), mark_written(sel, t)),
            None => (files, sel),
        }
    }
}

/// Whether `t` is among the files found so far.
pub open spec fn is_written(sel: ArchiveSelection, t: ArchiveTarget) -> bool {
    match t {
        ArchiveTarget::Ffmpeg => sel.ffmpeg_written,
        ArchiveTarget::Ffprobe => sel.ffprobe_written,
        ArchiveTarget::License => sel.license_written,
        ArchiveTarget::Readme => sel.readme_written,
    }
}

/// However the archive is laid out, each wanted file is kept at most once
/// (from the first member chosen for it), and a file counts as found exactly
/// when it has been kept.
pub proof fn law_kept_files_distinct(members: Seq<(Seq<char>, Seq<u8>)>)
    ensures
        forall|i: int, j: int|
            0 <= i < j < chosen_files(members).0.len() ==> #[trigger] chosen_files(members).0[i].0
                != #[trigger] chosen_files(members).0[j].0,
        forall|t: ArchiveTarget|
            is_written(chosen_files(members).1, t) <==> exists|i: int|
                0 <= i < chosen_files(members).0.len() && #[trigger] chosen_files(members).0[i].0 == t,
    decreases members.len(),
{
    if members.len() > 0 {
        law_kept_files_distinct(members.drop_last());
        let (files, sel) = chosen_files(members.drop_last());
        let m = members.last();
        match archive_target_of(sel, m.0) {
            Some(t) => {
                assert(!is_written(sel, t));
                let nf = files.push((t, m.1));
                assert forall|u: ArchiveTarget|
                    is_written(mark_written(sel, t), u) <==> exists|i: int| 0 <= i < nf.len() && #[trigger] nf[i].0 == u by {
                    if u == t {
                        assert(nf[files.len() as int].0 == u);
                    } else if is_written(sel, u) {
                        let i = choose|i: int| 0 <= i < files.len() && #[trigger] files[i].0 == u;
                        assert(nf[i].0 == u);
                    } else {
                        assert forall|i: int| 0 <= i < nf.len() implies #[trigger] nf[i].0 != u by {
                            if i < files.len() {
                                assert(files[i].0 != u);
                            }
                        }
                    }
                }
                assert forall|i: int, j: int| 0 <= i < j < nf.len() implies #[trigger] nf[i].0 != #[trigger] nf[j].0 by {
                    if j == files.len() {
                        assert(is_written(sel, files[i].0));
                    } else {
                        assert(files[i].0 != files[j].0);
                    }
                }
            },
            None => {},
        }
    }
}

/// What the Linux archive yields: the error it could not be read for;
/// `FfmpegUnavailable` when it holds no `ffmpeg` or no `ffprobe`; else the
/// files kept from it, in archive order.
pub open spec fn linux_suite_outcome(members: Result<Seq<(Seq<char>, Seq<u8>)>, Seq<char>>) -> Result<
    Seq<(ArchiveTarget, Seq<u8>)>,
    DownloaderErrorView,
> {
    match members {
        Err(m) => Err(DownloaderErrorView::ProcessFailed(m)),
        Ok(ms) => {
            let (files, sel) = chosen_files(ms);
            if sel.ffmpeg_written && sel.ffprobe_written {
                Ok(files)
            } else {
                Err(DownloaderErrorView::FfmpegUnavailable)
            }
        },
    }
}

/// An accepted Linux archive yields both programs, each exactly once.
pub proof fn law_accepted_archive_has_both_programs(members: Seq<(Seq<char>, Seq<u8>)>)
    requires
        linux_suite_outcome(Ok(members)) is Ok,
    ensures
        exists|i: int|
            0 <= i < linux_suite_outcome(Ok(members))->Ok_0.len() && #[trigger] linux_suite_outcome(
                Ok(members),
            )->Ok_0[i].0 == ArchiveTarget::Ffmpeg,
        exists|i: int|
            0 <= i < linux_suite_outcome(Ok(members))->Ok_0.len() && #[trigger] linux_suite_outcome(
                Ok(members),
            )->Ok_0[i].0 == ArchiveTarget::Ffprobe,
        forall|i: int, j: int|
            0 <= i < j < linux_suite_outcome(Ok(members))->Ok_0.len() ==> #[trigger] linux_suite_outcome(
                Ok(members),
            )->Ok_0[i].0 != #[trigger] linux_suite_outcome(Ok(members))->Ok_0[j].0,
{
    law_kept_files_distinct(members);
    let files = chosen_files(members).0;
    assert(linux_suite_outcome(Ok(members))->Ok_0 == files);
    assert(is_written(chosen_files(members).1, ArchiveTarget::Ffmpeg));
    let i = choose|i: int| 0 <= i < files.len() && #[trigger] files[i].0 == ArchiveTarget::Ffmpeg;
    assert(linux_suite_outcome(Ok(members))->Ok_0[i].0 == ArchiveTarget::Ffmpeg);
    assert(is_written(chosen_files(members).1, ArchiveTarget::Ffprobe));
    let j = choose|j: int| 0 <= j < files.len() && #[trigger] files[j].0 == ArchiveTarget::Ffprobe;
    assert(linux_suite_outcome(Ok(members))->Ok_0[j].0 == ArchiveTarget::Ffprobe);
}

/// The files to write from the Linux archive, given what reading it gave.
pub fn linux_suite_files_from(members: Result<Vec<(String, Vec<u8>)>, String>) -> (r: Result<
    Vec<(ArchiveTarget, Vec<u8>)>,
    DownloaderError,
>)
    ensures
        files_view(r) == linux_suite_outcome(members_view(members)),
{
    let mut rest = match members {
        Ok(v) => v,
        Err(m) => return Err(DownloaderError::ProcessFailed(m)),
    };
    let ghost all = member_seq(rest@);
    let ghost mut k: int = 0;
    let mut sel = ArchiveSelection::new();
    let mut files: Vec<(ArchiveTarget, Vec<u8>)> = Vec::new();
    while rest.len() > 0
        invariant
            0 <= k <= all.len(),
            member_seq(rest@) == all.skip(k),
            (file_seq(files@), sel) == chosen_files(all.take(k)),
        decreases rest.len(),
    {
        let ghost before = rest@;
        let (path, data) = rest.remove(0);
        proof {
            assert(member_seq(before).len() == before.len());
            assert(k < all.len());
            assert(all.skip(k)[0] == all[k]);
            assert(all[k] == member_seq(before)[0]);
            assert forall|i: int| 0 <= i < rest@.len() implies #[trigger] member_seq(rest@)[i] == all.skip(k + 1)[i] by {
                assert(rest@[i] == before[i + 1]);
                assert(member_seq(before)[i + 1] == all.skip(k)[i + 1]);
            }
            assert(member_seq(rest@) =~= all.skip(k + 1));
            assert(all.take(k + 1).drop_last() =~= all.take(k));
        }
        match sel.target_for(path.as_str()) {
            Some(t) => {
                let ghost old_files = files@;
                files.push((t, data));
                sel.mark(t);
                assert(file_seq(files@) =~= file_seq(old_files).push((t, all[k].1)));
            },
            None => {},
        }
        proof {
            k = k + 1;
        }
    }
    proof {
        assert(all.take(k) =~= all);
    }
    match sel.finish() {
        Ok(()) => Ok(files),
        Err(e) => Err(e),
    }
}

/// The files to write from the Linux `ffmpeg` archive: the first entry whose
/// path ends in `/ffmpeg`, the first ending in `/ffprobe`, and, ignoring case,
/// the first ending in `/gplv3.txt` and in `/readme.txt`.
pub fn linux_suite_files(archive: &[u8]) -> (r: Result<Vec<(ArchiveTarget, Vec<u8>)>, DownloaderError>)
    ensures
        files_view(r) == linux_suite_outcome(tar_xz_members(archive@)),
{
    linux_suite_files_from(read_tar_xz(archive))
}

/// A path component that names something: neither empty nor `.`.
pub open spec fn names_something(seg: Seq<char>) -> bool {
    seg.len() > 0 && seg != "."@
}

/// Reading a `/`-separated path from the left: the component being read, and
/// the last finished component that names something.
pub open spec fn component_scan(s: Seq<char>) -> (Seq<char>, Seq<char>)
    decreases s.len(),
{
    if s.len() == 0 {
        (Seq::empty(), Seq::empty())
    } else {
        let (cur, last) = component_scan(s.drop_last());
        if s.last() == '/' {
            (Seq::empty(), if names_something(cur) { cur } else { last })
        } else {
            (cur.push(s.last()), last)
        }
    }
}

/// The file name of a `/`-separated path, as `Path::file_name` gives it on
/// Unix: the last component that is neither empty nor `.`; none (empty) when
/// there is no such component or it is `..`.
pub open spec fn file_name_of(s: Seq<char>) -> Seq<char> {
    let (cur, last) = component_scan(s);
    let l = if names_something(cur) { cur } else { last };
    if l == ".."@ { Seq::empty() } else { l }
}

fn is_naming(seg: &Vec<char>) -> (b: bool)
    ensures
        b == names_something(seg@),
{
    proof {
        reveal_strlit(".");
    }
    if seg.len() == 0 {
        false
    } else if seg.len() == 1 && seg[0] == '.' {
        assert(seg@ =~= "."@);
        false
    } else {
        assert(seg@ != "."@) by {
            if seg@ == "."@ {
                assert(seg@.len() == 1 && seg@[0] == '.');
            }
        }
        true
    }
}

/// The file name of a member's path (see `file_name_of`).
pub fn file_name_of_path(path: &str) -> (r: String)
    ensures
        r@ == file_name_of(path@),
{
    let chars = crate::text::chars_of(path);
    let mut cur: Vec<char> = Vec::new();
    let mut last: Vec<char> = Vec::new();
    let mut i: usize = 0;
    while i < chars.len()
        invariant
            i <= chars.len(),
            chars@ == path@,
            (cur@, last@) == component_scan(chars@.take(i as int)),
        decreases chars.len() - i,
    {
        let c = chars[i];
        proof {
            assert(chars@.take(i + 1).drop_last() =~= chars@.take(i as int));
        }
        if c == '/' {
            if is_naming(&cur) {
                last = cur;
            }
            cur = Vec::new();
        } else {
            cur.push(c);
        }
        i += 1;
    }
    proof {
        assert(chars@.take(i as int) =~= path@);
        reveal_strlit("..");
    }
    let l = if is_naming(&cur) { cur } else { last };
    if l.len() == 2 && l[0] == '.' && l[1] == '.' {
        assert(l@ =~= ".."@);
        String::new()
    } else {
        assert(l@ != ".."@) by {
            if l@ == ".."@ {
                assert(l@.len() == 2 && l@[0] == '.' && l@[1] == '.');
            }
        }
        crate::text::string_of(&l, 0, l.len())
    }
}

/// How many members a zip archive lists, or the text of the error opening it
/// stopped at.
pub uninterp spec fn zip_entry_count(archive: Seq<u8>) -> Result<usize, Seq<char>>;

/// The path of the member at `index` of a zip archive, or the text of the
/// error reaching it stopped at.
pub uninterp spec fn zip_entry_name(archive: Seq<u8>, index: usize) -> Result<Seq<char>, Seq<char>>;

/// The contents of the member at `index` of a zip archive, or the text of the
/// error reading it stopped at.
pub uninterp spec fn zip_entry_data(archive: Seq<u8>, index: usize) -> Result<Seq<u8>, Seq<char>>;

pub open spec fn count_view(r: Result<usize, String>) -> Result<usize, Seq<char>> {
    match r {
        Ok(n) => Ok(n),
        Err(e) => Err(e@),
    }
}

pub open spec fn text_view(r: Result<String, String>) -> Result<Seq<char>, Seq<char>> {
    match r {
        Ok(s) => Ok(s@),
        Err(e) => Err(e@),
    }
}

pub open spec fn data_view(r: Result<Vec<u8>, String>) -> Result<Seq<u8>, Seq<char>> {
    match r {
        Ok(d) => Ok(d@),
        Err(e) => Err(e@),
    }
}

/// `zip::ZipArchive::new` over the bytes, then `ZipArchive::len`; an error
/// becomes its text. The claim is only that the result is a function of the
/// bytes, named `zip_entry_count`.
#[verifier::external_body]
fn zip_count(archive: &[u8]) -> (r: Result<usize, String>)
    ensures
        count_view(r) == zip_entry_count(archive@),
{
    zip::ZipArchive::new(std::io::Cursor::new(archive)).map(|zip| zip.len()).map_err(|e| e.to_string())
}

/// `zip::ZipArchive::new` over the bytes, then `ZipArchive::by_index_decrypt`
/// with an empty password and `ZipFile::name`; each error becomes its text.
/// For a member that is not encrypted this opens it as `by_index` does, but
/// hands back the invalid-password error where `by_index` would panic (a member
/// marked for AES without the encrypted flag); an encrypted member, which
/// `by_index` refuses as needing a password, fails to decrypt instead. The
/// claim is only that the result is a function of the bytes and the index,
/// named `zip_entry_name`.
#[verifier::external_body]
fn zip_name(archive: &[u8], index: usize) -> (r: Result<String, String>)
    ensures
        text_view(r) == zip_entry_name(archive@, index),
{
    let mut zip = zip::ZipArchive::new(std::io::Cursor::new(archive)).map_err(|e| e.to_string())?;
    let file = zip.by_index_decrypt(index, b"").map_err(|e| e.to_string())?.map_err(|e| e.to_string())?;
    Ok(file.name().to_string())
}

/// As `zip_name`, then `Read::read_to_end` of the member; each error becomes
/// its text. The claim is only that the result is a function of the bytes and
/// the index, named `zip_entry_data`.
#[verifier::external_body]
fn zip_data(archive: &[u8], index: usize) -> (r: Result<Vec<u8>, String>)
    ensures
        data_view(r) == zip_entry_data(archive@, index),
{
    let mut zip = zip::ZipArchive::new(std::io::Cursor::new(archive)).map_err(|e| e.to_string())?;
    let mut file = zip.by_index_decrypt(index, b"").map_err(|e| e.to_string())?.map_err(|e| e.to_string())?;
    let mut data = Vec::new();
    std::io::Read::read_to_end(&mut file, &mut data).map_err(|e| e.to_string())?;
    Ok(data)
}

/// Whether a member at `path` is the one wanted: by its file name (the last
/// component of its path) being `wanted`, or else by its path ending with `wanted`.
pub open spec fn member_matches(path: Seq<char>, wanted: Seq<char>, by_file_name: bool) -> bool {
    if by_file_name {
        file_name_of(path) == wanted
    } else {
        ends_with(path, wanted)
    }
}

pub fn member_is_wanted(path: &str, wanted: &str, by_file_name: bool) -> (b: bool)
    ensures
        b == member_matches(path@, wanted@, by_file_name),
{
    if by_file_name {
        let leaf = file_name_of_path(path);
        crate::text::str_equal(leaf.as_str(), wanted)
    } else {
        crate::text::str_ends_with(path, wanted)
    }
}

/// Looking through the members from `index` on, in order: the first member
/// wanted gives its contents; an error reaching a member, or reading the one
/// wanted, ends the search; past the last member the file is missing.
pub open spec fn zip_search(archive: Seq<u8>, count: usize, index: int, wanted: Seq<char>, by_file_name: bool) -> Result<
    Seq<u8>,
    DownloaderErrorView,
>
    decreases count - index,
{
    if index < 0 || index >= count {
        Err(missing_member(wanted))
    } else {
        match zip_entry_name(archive, index as usize) {
            Err(m) => Err(DownloaderErrorView::ProcessFailed(m)),
            Ok(path) => if member_matches(path, wanted, by_file_name) {
                match zip_entry_data(archive, index as usize) {
                    Ok(d) => Ok(d),
                    Err(m) => Err(DownloaderErrorView::ProcessFailed(m)),
                }
            } else {
                zip_search(archive, count, index + 1, wanted, by_file_name)
            },
        }
    }
}

/// What a zip yields for the file wanted: the error opening it; else the
/// search through its members from the first.
pub open spec fn zip_member_outcome(archive: Seq<u8>, wanted: Seq<char>, by_file_name: bool) -> Result<
    Seq<u8>,
    DownloaderErrorView,
> {
    match zip_entry_count(archive) {
        Err(m) => Err(DownloaderErrorView::ProcessFailed(m)),
        Ok(n) => zip_search(archive, n, 0, wanted, by_file_name),
    }
}

pub open spec fn bytes_view(r: Result<Vec<u8>, DownloaderError>) -> Result<Seq<u8>, DownloaderErrorView> {
    match r {
        Ok(v) => Ok(v@),
        Err(e) => Err(e@),
    }
}

/// The contents of the first member of the zip that is wanted (see
/// `member_matches`), reading members one by one and only the contents of
/// that one; or the missing-file error.
pub fn extract_zip_member(archive: &[u8], wanted: &str, by_file_name: bool) -> (r: Result<Vec<u8>, DownloaderError>)
    ensures
        bytes_view(r) == zip_member_outcome(archive@, wanted@, by_file_name),
{
    let count = match zip_count(archive) {
        Ok(n) => n,
        Err(m) => return Err(DownloaderError::ProcessFailed(m)),
    };
    let mut i: usize = 0;
    while i < count
        invariant
            i <= count,
            zip_entry_count(archive@) == Ok::<usize, Seq<char>>(count),
            zip_member_outcome(archive@, wanted@, by_file_name) == zip_search(
                archive@,
                count,
                i as int,
                wanted@,
                by_file_name,
            ),
        decreases count - i,
    {
        let path = match zip_name(archive, i) {
            Ok(p) => p,
            Err(m) => return Err(DownloaderError::ProcessFailed(m)),
        };
        if member_is_wanted(path.as_str(), wanted, by_file_name) {
            return match zip_data(archive, i) {
                Ok(d) => Ok(d),
                Err(m) => Err(DownloaderError::ProcessFailed(m)),
            };
        }
        i += 1;
    }
    Err(DownloaderError::ProcessFailed(crate::text::concat("missing file in zip: ", wanted)))
}

/// The contents of the first member whose path ends with `suffix`.
pub fn zip_member_ending_with(archive: &[u8], suffix: &str) -> (r: Result<Vec<u8>, DownloaderError>)
    ensures
        bytes_view(r) == zip_member_outcome(archive@, suffix@, false),
{
    extract_zip_member(archive, suffix, false)
}

/// The contents of the first member whose file name is exactly `name`.
pub fn zip_member_named(archive: &[u8], name: &str) -> (r: Result<Vec<u8>, DownloaderError>)
    ensures
        bytes_view(r) == zip_member_outcome(archive@, name@, true),
{
    extract_zip_member(archive, name, true)
}

/// What the Windows archive yields: the first error among taking, in turn, the
/// first member whose path ends with `ffmpeg.exe`, `ffprobe.exe`, `LICENSE`
/// and `README.txt`; else those four, in that order.
pub open spec fn windows_suite_outcome(archive: Seq<u8>) -> Result<Seq<(ArchiveTarget, Seq<u8>)>, DownloaderErrorView> {
    match zip_member_outcome(archive, "ffmpeg.exe"@, false) {
        Err(e) => Err(e),
        Ok(a) => match zip_member_outcome(archive, "ffprobe.exe"@, false) {
            Err(e) => Err(e),
            Ok(b) => match zip_member_outcome(archive, "LICENSE"@, false) {
                Err(e) => Err(e),
                Ok(c) => match zip_member_outcome(archive, "README.txt"@, false) {
                    Err(e) => Err(e),
                    Ok(d) => Ok(
                        seq![
                            (ArchiveTarget::Ffmpeg, a),
                            (ArchiveTarget::Ffprobe, b),
                            (ArchiveTarget::License, c),
                            (ArchiveTarget::Readme, d),
                        ],
                    ),
                },
            },
        },
    }
}

/// The files to write from the Windows `ffmpeg` zip.
pub fn windows_suite_files(archive: &[u8]) -> (r: Result<Vec<(ArchiveTarget, Vec<u8>)>, DownloaderError>)
    ensures
        files_view(r) == windows_suite_outcome(archive@),
{
    let a = zip_member_ending_with(archive, "ffmpeg.exe")?;
    let b = zip_member_ending_with(archive, "ffprobe.exe")?;
    let c = zip_member_ending_with(archive, "LICENSE")?;
    let d = zip_member_ending_with(archive, "README.txt")?;
    let files = vec![
        (ArchiveTarget::Ffmpeg, a),
        (ArchiveTarget::Ffprobe, b),
        (ArchiveTarget::License, c),
        (ArchiveTarget::Readme, d),
    ];
    assert(file_seq(files@) =~= windows_suite_outcome(archive@)->Ok_0);
    Ok(files)
}

proof fn lemma_scan_last_component(dir: Seq<char>, w: Seq<char>)
    requires
        forall|i: int| 0 <= i < w.len() ==> #[trigger] w[i] != '/',
    ensures
        component_scan(dir + seq!['/'] + w).0 == w,
    decreases w.len(),
{
    if w.len() == 0 {
        assert(dir + seq!['/'] + w =~= dir.push('/'));
        assert(dir.push('/').drop_last() =~= dir);
    } else {
        assert((dir + seq!['/'] + w).drop_last() =~= dir + seq!['/'] + w.drop_last());
        assert forall|i: int| 0 <= i < w.drop_last().len() implies #[trigger] w.drop_last()[i] != '/' by {
            assert(w.drop_last()[i] == w[i]);
        }
        lemma_scan_last_component(dir, w.drop_last());
        assert(w[w.len() - 1] != '/');
        assert(w.drop_last().push(w.last()) =~= w);
    }
}

/// The file name of `dir/name` is `name`, whatever the directory, for any
/// name without `/` that is not empty, `.` or `..`.
pub proof fn law_file_name_is_last_component(dir: Seq<char>, name: Seq<char>)
    requires
        forall|i: int| 0 <= i < name.len() ==> #[trigger] name[i] != '/',
        names_something(name),
        name != ".."@,
    ensures
        file_name_of(dir + "/"@ + name) == name,
{
    reveal_strlit("/");
    assert("/"@ =~= seq!['/']);
    lemma_scan_last_component(dir, name);
}

} // verus!
