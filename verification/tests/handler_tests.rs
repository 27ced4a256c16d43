use rumbex_smb_native::address::{connect, ShareRoot};
use rumbex_smb_native::failure::{ErrorKind, Failure};
use rumbex_smb_native::mkdir::{mkdir, mkdir_done, mkdir_p};
use rumbex_smb_native::presence::{path_exists, path_exists_probed, ExistsStep, Presence};
use rumbex_smb_native::probe::{expect_handle, open_at, open_for_kind, open_named, probe, settle};
use rumbex_smb_native::read::{read_file, read_file_done, read_file_opened};
use rumbex_smb_native::rename::{
    rename, rename_done, rename_opened, rename_reopened, to_backslashes, RenameStep,
};
use rumbex_smb_native::request::{
    delete, directory, inspect, kind_options, look, overwrite, renaming, Access, Disposition,
    HandleTag, Kind, OpenMode, OpenRequest, Options,
};
use rumbex_smb_native::rm::{rm, rm_done, rm_probed};
use rumbex_smb_native::stat::{stat, stat_done, stat_opened, Stat};
use rumbex_smb_native::write::{write_file, write_file_done, write_file_opened};

fn share() -> ShareRoot {
    connect(r"\\host\share").unwrap()
}

fn refused(text: &str) -> Result<HandleTag, String> {
    Err(text.to_string())
}

fn assert_failure(f: &Failure, kind: ErrorKind, detail: &str) {
    assert_eq!(f.kind, kind);
    assert_eq!(f.detail, detail);
}

const NONE: Options =
    Options { directory_file: false, non_directory_file: false, delete_on_close: false };
const READ: Access = Access { generic_read: true, generic_write: false, delete: false };
const READ_WRITE: Access = Access { generic_read: true, generic_write: true, delete: false };
const FULL: Access = Access { generic_read: true, generic_write: true, delete: true };

#[test]
fn modes_are_what_each_operation_asks_for() {
    assert_eq!(
        look(),
        OpenMode { disposition: Disposition::Open, access: READ, options: NONE, directory_attribute: false }
    );
    assert_eq!(
        overwrite(),
        OpenMode {
            disposition: Disposition::OverwriteIf,
            access: READ_WRITE,
            options: NONE,
            directory_attribute: false
        }
    );
    let as_dir = Options { directory_file: true, ..NONE };
    let as_file = Options { non_directory_file: true, ..NONE };
    assert_eq!(kind_options(Kind::Dir), as_dir);
    assert_eq!(kind_options(Kind::File), as_file);
    assert_eq!(
        directory(true),
        OpenMode {
            disposition: Disposition::Create,
            access: READ_WRITE,
            options: as_dir,
            directory_attribute: true
        }
    );
    assert_eq!(
        directory(false),
        OpenMode {
            disposition: Disposition::OpenIf,
            access: READ_WRITE,
            options: as_dir,
            directory_attribute: true
        }
    );
    assert_eq!(
        inspect(Kind::File),
        OpenMode { disposition: Disposition::Open, access: READ, options: as_file, directory_attribute: false }
    );
    assert_eq!(
        inspect(Kind::Dir),
        OpenMode { disposition: Disposition::Open, access: READ, options: as_dir, directory_attribute: false }
    );
    assert_eq!(
        delete(Kind::File),
        OpenMode {
            disposition: Disposition::Open,
            access: FULL,
            options: Options { delete_on_close: true, ..as_file },
            directory_attribute: false
        }
    );
    assert_eq!(
        delete(Kind::Dir),
        OpenMode {
            disposition: Disposition::Open,
            access: FULL,
            options: Options { delete_on_close: true, ..as_dir },
            directory_attribute: false
        }
    );
    assert_eq!(
        renaming(Kind::File),
        OpenMode { disposition: Disposition::Open, access: FULL, options: as_file, directory_attribute: false }
    );
    assert_eq!(
        renaming(Kind::Dir),
        OpenMode { disposition: Disposition::Open, access: FULL, options: as_dir, directory_attribute: false }
    );
}

#[test]
fn a_probe_opens_for_reading_without_naming_a_kind() {
    let req = probe(&share(), "a/b.txt").unwrap();
    assert_eq!(req.path, r"\\host\share\a\b.txt");
    assert_eq!(req.mode, look());
    assert_failure(&probe(&share(), "a/../b").unwrap_err(), ErrorKind::BadPath, "");
    assert_eq!(probe(&share(), "").unwrap().path, r"\\host\share");
}

#[test]
fn a_probe_shows_a_file_a_directory_or_nothing() {
    assert_eq!(open_for_kind(&Ok(HandleTag::File)), Some(Kind::File));
    assert_eq!(open_for_kind(&Ok(HandleTag::Directory)), Some(Kind::Dir));
    assert_eq!(open_for_kind(&Ok(HandleTag::Other)), None);
    assert_eq!(open_for_kind(&refused("Object Name Not Found (0xc0000034)")), None);
    assert_eq!(open_for_kind(&refused("Access Denied (0xc0000022)")), None);
    assert_eq!(open_for_kind(&refused("")), None);
}

#[test]
fn opening_a_named_object_refuses_the_root() {
    for rel in ["", "/", ".", r"\.\"] {
        assert_failure(&open_named(&share(), rel, look()).unwrap_err(), ErrorKind::BadPath, "");
        assert_eq!(open_at(&share(), rel, look()).unwrap().path, r"\\host\share");
    }
    assert_eq!(open_named(&share(), "x", overwrite()).unwrap().mode, overwrite());
    assert_failure(&open_named(&share(), "..", look()).unwrap_err(), ErrorKind::BadPath, "");
}

#[test]
fn a_handle_of_the_wrong_kind_is_a_mismatch() {
    assert!(expect_handle(Ok(HandleTag::File), HandleTag::File).is_ok());
    assert!(expect_handle(Ok(HandleTag::Directory), HandleTag::Directory).is_ok());
    assert_failure(
        &expect_handle(Ok(HandleTag::Directory), HandleTag::File).unwrap_err(),
        ErrorKind::NotAFile,
        "",
    );
    assert_failure(
        &expect_handle(Ok(HandleTag::Other), HandleTag::File).unwrap_err(),
        ErrorKind::NotAFile,
        "",
    );
    assert_failure(
        &expect_handle(Ok(HandleTag::File), HandleTag::Directory).unwrap_err(),
        ErrorKind::NotADirectory,
        "",
    );
    assert_failure(
        &expect_handle(Ok(HandleTag::Other), HandleTag::Directory).unwrap_err(),
        ErrorKind::NotADirectory,
        "",
    );
    assert_failure(
        &expect_handle(refused("denied"), HandleTag::File).unwrap_err(),
        ErrorKind::OpenError,
        "denied",
    );
}

#[test]
fn settling_keeps_values_and_tags_failures() {
    assert_eq!(settle(Ok::<u8, String>(7), ErrorKind::ConnectError).unwrap(), 7);
    assert_failure(
        &settle(Err::<u8, String>("no route".to_string()), ErrorKind::ConnectError).unwrap_err(),
        ErrorKind::ConnectError,
        "no route",
    );
}

#[test]
fn existence_of_the_root_needs_no_request() {
    for rel in ["", "/", r"\\", ".", "./"] {
        match path_exists(&share(), rel).unwrap() {
            ExistsStep::Known(presence) => assert_eq!(presence, Presence::Directory),
            ExistsStep::Probe(_) => panic!("the root was probed"),
        }
    }
}

#[test]
fn existence_of_anything_else_is_probed() {
    match path_exists(&share(), "a/b/c").unwrap() {
        ExistsStep::Probe(req) => {
            assert_eq!(req.path, r"\\host\share\a\b\c");
            assert_eq!(req.mode, look());
        }
        ExistsStep::Known(_) => panic!("known without a probe"),
    }
    assert_failure(&path_exists(&share(), "a/..").unwrap_err(), ErrorKind::BadPath, "");
    assert_eq!(path_exists_probed(&Ok(HandleTag::File)), Presence::File);
    assert_eq!(path_exists_probed(&Ok(HandleTag::Directory)), Presence::Directory);
    assert_eq!(path_exists_probed(&Ok(HandleTag::Other)), Presence::NotFound);
    assert_eq!(path_exists_probed(&refused("gone (0xc0000034)")), Presence::NotFound);
}

#[test]
fn reading_hands_the_bytes_on_unchanged() {
    let req = read_file(&share(), "/dir/file.bin").unwrap();
    assert_eq!(req.path, r"\\host\share\dir\file.bin");
    assert_eq!(req.mode, look());
    assert!(read_file_opened(Ok(HandleTag::File)).is_ok());
    assert_eq!(read_file_done(Ok(vec![])).unwrap(), Vec::<u8>::new());
    assert_eq!(read_file_done(Ok(vec![0, 255, 7])).unwrap(), vec![0, 255, 7]);
    let big: Vec<u8> = (0..3_000_000u32).map(|i| (i % 251) as u8).collect();
    assert_eq!(read_file_done(Ok(big.clone())).unwrap(), big);
}

#[test]
fn reading_fails_as_open_or_read_error() {
    assert_failure(&read_file(&share(), "..").unwrap_err(), ErrorKind::BadPath, "");
    assert_failure(
        &read_file_opened(Ok(HandleTag::Directory)).unwrap_err(),
        ErrorKind::NotAFile,
        "",
    );
    assert_failure(
        &read_file_opened(refused("no such file")).unwrap_err(),
        ErrorKind::OpenError,
        "no such file",
    );
    assert_failure(
        &read_file_done(Err("broken pipe".to_string())).unwrap_err(),
        ErrorKind::ReadError,
        "broken pipe",
    );
}

#[test]
fn writing_overwrites_or_creates() {
    let req = write_file(&share(), "a.txt").unwrap();
    assert_eq!(req.path, r"\\host\share\a.txt");
    assert_eq!(req.mode.disposition, Disposition::OverwriteIf);
    assert_eq!(req.mode, overwrite());
    assert!(write_file_opened(Ok(HandleTag::File)).is_ok());
    assert!(write_file_done(Ok(())).is_ok());
    assert_failure(&write_file(&share(), "a/../b").unwrap_err(), ErrorKind::BadPath, "");
    assert_failure(
        &write_file_opened(Ok(HandleTag::Directory)).unwrap_err(),
        ErrorKind::NotAFile,
        "",
    );
    assert_failure(
        &write_file_opened(refused("denied")).unwrap_err(),
        ErrorKind::OpenError,
        "denied",
    );
    assert_failure(
        &write_file_done(Err("disk full".to_string())).unwrap_err(),
        ErrorKind::WriteError,
        "disk full",
    );
}

#[test]
fn reading_and_writing_address_the_same_object() {
    for rel in ["a.txt", "/x/y", r"d\e\f", "./g"] {
        assert_eq!(read_file(&share(), rel).unwrap().path, write_file(&share(), rel).unwrap().path);
    }
}

#[test]
fn stat_measures_a_file_by_reading_it() {
    let req = stat(&share(), "f").unwrap();
    assert_eq!(req.path, r"\\host\share\f");
    assert_eq!(req.mode, look());
    assert_eq!(stat_opened(Ok(HandleTag::File)).unwrap(), None);
    assert_eq!(stat_done(Ok(vec![1, 2, 3, 4, 5])).unwrap(), Stat { size: 5, is_directory: false });
    assert_eq!(stat_done(Ok(vec![])).unwrap(), Stat { size: 0, is_directory: false });
    assert_failure(
        &stat_done(Err("reset".to_string())).unwrap_err(),
        ErrorKind::ReadError,
        "reset",
    );
}

#[test]
fn stat_takes_anything_else_for_a_directory() {
    let dir = Some(Stat { size: 0, is_directory: true });
    assert_eq!(stat_opened(Ok(HandleTag::Directory)).unwrap(), dir);
    assert_eq!(stat_opened(Ok(HandleTag::Other)).unwrap(), dir);
    assert_failure(&stat_opened(refused("nope")).unwrap_err(), ErrorKind::OpenError, "nope");
    assert_eq!(stat(&share(), "").unwrap().path, r"\\host\share");
    assert_failure(&stat(&share(), "..").unwrap_err(), ErrorKind::BadPath, "");
}

#[test]
fn mkdir_creates_only_what_is_absent() {
    let req = mkdir(&share(), "a/b").unwrap();
    assert_eq!(req.path, r"\\host\share\a\b");
    assert_eq!(req.mode.disposition, Disposition::Create);
    assert_eq!(req.mode, directory(true));
    assert!(mkdir_done(Ok(HandleTag::Directory)).is_ok());
    assert_failure(
        &mkdir_done(refused("Object Name Collision (0xc0000035)")).unwrap_err(),
        ErrorKind::CreateError,
        "Object Name Collision (0xc0000035)",
    );
    assert_failure(&mkdir(&share(), "").unwrap_err(), ErrorKind::BadPath, "");
    assert_failure(&mkdir(&share(), "/").unwrap_err(), ErrorKind::BadPath, "");
    assert_failure(&mkdir(&share(), "a/..").unwrap_err(), ErrorKind::BadPath, "");
}

#[test]
fn mkdir_p_walks_from_the_outermost_directory_inwards() {
    let mut walk = mkdir_p(&share(), "a/b/c").unwrap();
    let mut seen = Vec::new();
    while let Some(req) = walk.pending() {
        assert_eq!(req.mode.disposition, Disposition::OpenIf);
        assert_eq!(req.mode, directory(false));
        seen.push(req.path);
        walk = walk.advance(Ok(HandleTag::Directory)).unwrap();
    }
    assert_eq!(seen, vec![r"\\host\share\a", r"\\host\share\a\b", r"\\host\share\a\b\c"]);
    assert!(walk.pending().is_none());
    let walk = walk.advance(Ok(HandleTag::Directory)).unwrap();
    assert!(walk.pending().is_none());
}

#[test]
fn mkdir_p_twice_asks_for_the_same_directories() {
    let paths = |rel: &str| {
        let mut walk = mkdir_p(&share(), rel).unwrap();
        let mut seen = Vec::new();
        while let Some(req) = walk.pending() {
            seen.push(req.path);
            walk = walk.advance(Ok(HandleTag::Directory)).unwrap();
        }
        seen
    };
    assert_eq!(paths("a/b/c"), paths("a/b/c"));
    assert_eq!(paths("/a//b/./c/"), paths("a/b/c"));
}

#[test]
fn mkdir_p_of_the_root_does_nothing() {
    for rel in ["", "/", r"\", "."] {
        let walk = mkdir_p(&share(), rel).unwrap();
        assert!(walk.pending().is_none());
    }
}

#[test]
fn mkdir_p_stops_at_the_first_failure() {
    let walk = mkdir_p(&share(), "a/b").unwrap();
    let walk = walk.advance(Ok(HandleTag::Directory)).unwrap();
    assert_eq!(walk.pending().unwrap().path, r"\\host\share\a\b");
    assert_failure(
        &walk.advance(refused("Access Denied (0xc0000022)")).unwrap_err(),
        ErrorKind::CreateError,
        "Access Denied (0xc0000022)",
    );
}

#[test]
fn mkdir_p_rejects_a_parent_reference_before_creating_anything() {
    assert_failure(&mkdir_p(&share(), "a/../b").unwrap_err(), ErrorKind::BadPath, "");
    assert_failure(&mkdir_p(&share(), "a/b/..").unwrap_err(), ErrorKind::BadPath, "");
}

#[test]
fn rm_of_an_absent_path_succeeds_every_time() {
    for _ in 0..2 {
        let req = rm(&share(), "gone.txt").unwrap();
        assert_eq!(req.mode, look());
        assert!(rm_probed(req, &refused("Object Name Not Found (0xc0000034)")).is_none());
    }
    let req = rm(&share(), "gone.txt").unwrap();
    assert!(rm_probed(req, &Ok(HandleTag::Other)).is_none());
}

#[test]
fn rm_opens_what_it_found_for_deletion() {
    let req = rm(&share(), "d/f.txt").unwrap();
    let next = rm_probed(req, &Ok(HandleTag::File)).unwrap();
    assert_eq!(next.path, r"\\host\share\d\f.txt");
    assert_eq!(next.mode, delete(Kind::File));
    assert!(next.mode.options.delete_on_close);
    assert!(next.mode.options.non_directory_file);
    assert!(next.mode.access.delete);
    let req = rm(&share(), "d").unwrap();
    let next = rm_probed(req, &Ok(HandleTag::Directory)).unwrap();
    assert_eq!(next.path, r"\\host\share\d");
    assert_eq!(next.mode, delete(Kind::Dir));
    assert!(next.mode.options.directory_file);
    assert!(rm_done(Ok(HandleTag::File)).is_ok());
    assert!(rm_done(Ok(HandleTag::Directory)).is_ok());
    assert!(rm_done(Ok(HandleTag::Other)).is_ok());
}

#[test]
fn rm_takes_not_found_and_delete_pending_for_success() {
    assert!(rm_done(refused("Object Name Not Found (0xc0000034)")).is_ok());
    assert!(rm_done(refused("open: (0xC0000034).")).is_ok());
    assert!(rm_done(refused("Delete Pending (0xc0000056)")).is_ok());
}

#[test]
fn rm_of_a_directory_with_entries_is_directory_not_empty() {
    assert_failure(
        &rm_done(refused("Directory Not Empty (0xc0000101)")).unwrap_err(),
        ErrorKind::DirectoryNotEmpty,
        "",
    );
    let text = smb::Error::UnexpectedMessageStatus(0xC000_0101).to_string();
    assert_failure(&rm_done(Err(text)).unwrap_err(), ErrorKind::DirectoryNotEmpty, "");
}

#[test]
fn rm_reports_any_other_refusal() {
    for text in ["Access Denied (0xc0000022)", "timed out", "(0x)", "", "(0xc00000340)"] {
        assert_failure(&rm_done(refused(text)).unwrap_err(), ErrorKind::DeleteError, text);
    }
}

#[test]
fn rm_refuses_the_root_and_parent_references() {
    for rel in ["", "/", ".", "..", "a/.."] {
        assert_failure(&rm(&share(), rel).unwrap_err(), ErrorKind::BadPath, "");
    }
}

#[test]
fn rename_resolves_the_source_and_passes_the_target_name_on() {
    let plan = rename(&share(), "a.txt", "b.txt", false).unwrap();
    assert_eq!(plan.open.path, r"\\host\share\a.txt");
    assert_eq!(plan.open.mode, renaming(Kind::File));
    assert!(!plan.info.replace_if_exists);
    assert_eq!(plan.info.root_directory, 0);
    assert_eq!(plan.info.file_name, "b.txt");
    let plan = rename(&share(), "/x/a.txt/", "/y/z/b.txt/", true).unwrap();
    assert_eq!(plan.open.path, r"\\host\share\x\a.txt");
    assert!(plan.info.replace_if_exists);
    assert_eq!(plan.info.file_name, r"y\z\b.txt");
    let plan = rename(&share(), "a", r"\p//q\./r", true).unwrap();
    assert_eq!(plan.info.file_name, r"p\\q\.\r");
}

#[test]
fn rename_needs_a_source_and_a_target() {
    for (from, to) in [("", "b"), ("/", "b"), ("a", ""), ("a", "/"), ("a", r"\/"), ("..", "b"), ("a/../c", "b"), (".", "b")] {
        assert_failure(&rename(&share(), from, to, true).unwrap_err(), ErrorKind::BadPath, "");
    }
}

#[test]
fn rename_tries_a_file_first_and_a_directory_next() {
    let plan = rename(&share(), "d", "e", false).unwrap();
    match rename_opened(plan.open, Ok(HandleTag::File)) {
        RenameStep::Apply => {}
        _ => panic!("a file handle takes the update"),
    }
    let plan = rename(&share(), "d", "e", false).unwrap();
    match rename_opened(plan.open, refused("File Is A Directory (0xc00000ba)")) {
        RenameStep::Retry(req) => {
            assert_eq!(req.path, r"\\host\share\d");
            assert_eq!(req.mode, renaming(Kind::Dir));
        }
        _ => panic!("a refused open is tried again"),
    }
    let plan = rename(&share(), "d", "e", false).unwrap();
    match rename_opened(plan.open, Ok(HandleTag::Directory)) {
        RenameStep::Fail(f) => assert_failure(&f, ErrorKind::NotAFile, ""),
        _ => panic!("a handle that is no file fails"),
    }
}

#[test]
fn rename_fails_as_open_or_rename_error() {
    assert!(rename_reopened(Ok(HandleTag::Directory)).is_ok());
    assert_failure(
        &rename_reopened(Ok(HandleTag::File)).unwrap_err(),
        ErrorKind::NotADirectory,
        "",
    );
    assert_failure(
        &rename_reopened(refused("not found")).unwrap_err(),
        ErrorKind::RenameOpenError,
        "not found",
    );
    assert!(rename_done(Ok(())).is_ok());
    assert_failure(
        &rename_done(Err("Object Name Collision (0xc0000035)".to_string())).unwrap_err(),
        ErrorKind::RenameError,
        "Object Name Collision (0xc0000035)",
    );
}

#[test]
fn slashes_turn_into_backslashes() {
    let text: Vec<char> = r"a/b\c//d".chars().collect();
    let want: Vec<char> = r"a\b\c\\d".chars().collect();
    assert_eq!(to_backslashes(&text), want);
    assert_eq!(to_backslashes(&Vec::new()), Vec::<char>::new());
}

#[test]
fn failures_are_built_bare_or_reported() {
    assert_failure(&Failure::bare(ErrorKind::LockUnavailable), ErrorKind::LockUnavailable, "");
    assert_failure(&Failure::bare(ErrorKind::AllocError), ErrorKind::AllocError, "");
    assert_failure(
        &Failure::reported(ErrorKind::ConnectError, "refused".to_string()),
        ErrorKind::ConnectError,
        "refused",
    );
}

#[test]
fn a_request_can_be_written_by_hand() {
    let req = OpenRequest { path: r"\\h\s\x".to_string(), mode: look() };
    let next = rm_probed(req, &Ok(HandleTag::File)).unwrap();
    assert_eq!(next.path, r"\\h\s\x");
}
