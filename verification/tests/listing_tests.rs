use rumbex_smb_native::address::{connect, ShareRoot};
use rumbex_smb_native::failure::ErrorKind;
use rumbex_smb_native::attributes::{classify, u32_from_le, FILE_ATTRIBUTE_DIRECTORY};
use rumbex_smb_native::list::{
    list_dir, list_dir_done, list_dir_opened, names_self_or_parent, DirEntry, EVERY_ENTRY,
};
use rumbex_smb_native::request::{inspect, look, HandleTag, Kind};
use rumbex_smb_native::stats::{
    file_stats, file_stats_basic, file_stats_done, file_stats_opened, file_stats_probed,
    BasicInfo, FileStats, StandardInfo,
};
use smb::FileAttributes;

const UNIX_EPOCH_TICKS: u64 = 116_444_736_000_000_000;

fn share() -> ShareRoot {
    connect(r"\\host\share").unwrap()
}

fn entry(name: &str, attributes: u32) -> Option<DirEntry> {
    Some(DirEntry { name: name.to_string(), file_attributes: attributes.to_le_bytes() })
}

fn names(raw: Vec<Option<DirEntry>>) -> Vec<(String, Kind)> {
    list_dir_done(Ok(raw)).unwrap().into_iter().map(|l| (l.name, l.kind)).collect()
}

#[test]
fn a_listing_opens_the_directory_for_reading() {
    let req = list_dir(&share(), "/docs/").unwrap();
    assert_eq!(req.path, r"\\host\share\docs");
    assert_eq!(req.mode, look());
    assert_eq!(list_dir(&share(), "").unwrap().path, r"\\host\share");
    assert_eq!(list_dir(&share(), "..").unwrap_err().kind, ErrorKind::BadPath);
    assert!(list_dir_opened(Ok(HandleTag::Directory)).is_ok());
    assert_eq!(
        list_dir_opened(Ok(HandleTag::File)).unwrap_err().kind,
        ErrorKind::NotADirectory
    );
    let failure = list_dir_opened(Err("denied".to_string())).unwrap_err();
    assert_eq!(failure.kind, ErrorKind::OpenError);
    assert_eq!(failure.detail, "denied");
}

#[test]
fn a_listing_never_shows_dot_or_dot_dot() {
    let raw = vec![
        entry(".", 0x10),
        entry("..", 0x10),
        entry("a.txt", 0x20),
        entry("..", 0),
        entry("sub", 0x10),
        entry(".", 0x20),
    ];
    assert_eq!(
        names(raw),
        vec![("a.txt".to_string(), Kind::File), ("sub".to_string(), Kind::Dir)]
    );
    assert_eq!(names(vec![entry(".", 0x10), entry("..", 0x10)]), vec![]);
}

#[test]
fn a_listing_keeps_names_that_merely_look_alike() {
    let raw = vec![entry("...", 0), entry(".a", 0), entry("..b", 0x10), entry(". ", 0), entry("", 0)];
    assert_eq!(
        names(raw),
        vec![
            ("...".to_string(), Kind::File),
            (".a".to_string(), Kind::File),
            ("..b".to_string(), Kind::Dir),
            (". ".to_string(), Kind::File),
            ("".to_string(), Kind::File),
        ]
    );
}

#[test]
fn undecodable_entries_are_skipped_without_a_word() {
    let raw = vec![None, entry("x", 0), None, None, entry("y", 0x10), None];
    assert_eq!(names(raw), vec![("x".to_string(), Kind::File), ("y".to_string(), Kind::Dir)]);
    assert_eq!(names(vec![None, None]), vec![]);
    assert_eq!(names(vec![]), vec![]);
}

#[test]
fn a_listing_keeps_the_order_of_the_enumeration() {
    let raw = vec![entry("z", 0), entry("a", 0), entry("m", 0), entry("a", 0x10)];
    let got: Vec<String> = names(raw).into_iter().map(|(n, _)| n).collect();
    assert_eq!(got, vec!["z", "a", "m", "a"]);
}

#[test]
fn a_failed_enumeration_is_a_query_error() {
    let failure = list_dir_done(Err("Invalid Info Class (0xc0000003)".to_string())).unwrap_err();
    assert_eq!(failure.kind, ErrorKind::QueryError);
    assert_eq!(failure.detail, "Invalid Info Class (0xc0000003)");
}

#[test]
fn the_directory_bit_decides_the_kind() {
    assert_eq!(FILE_ATTRIBUTE_DIRECTORY, 0x10);
    assert_eq!(classify(0), Kind::File);
    assert_eq!(classify(0x10), Kind::Dir);
    assert_eq!(classify(0x20), Kind::File);
    assert_eq!(classify(0x30), Kind::Dir);
    assert_eq!(classify(u32::MAX), Kind::Dir);
    assert_eq!(classify(!0x10), Kind::File);
}

#[test]
fn the_directory_bit_is_the_one_the_protocol_sets() {
    let dir = FileAttributes::new().with_directory(true).with_hidden(true);
    let file = FileAttributes::new().with_archive(true).with_readonly(true);
    assert_eq!(classify(u32_from_le(&dir.into_bytes())), Kind::Dir);
    assert_eq!(classify(u32_from_le(&file.into_bytes())), Kind::File);
    assert_eq!(
        u32_from_le(&FileAttributes::new().with_directory(true).into_bytes()),
        FILE_ATTRIBUTE_DIRECTORY
    );
}

#[test]
fn names_of_self_and_parent_are_told_apart() {
    assert!(names_self_or_parent("."));
    assert!(names_self_or_parent(".."));
    assert!(!names_self_or_parent(""));
    assert!(!names_self_or_parent("..."));
    assert!(!names_self_or_parent("a"));
    assert!(!names_self_or_parent(".a"));
    assert!(!names_self_or_parent("a."));
    assert!(!names_self_or_parent("ab"));
}

#[test]
fn four_bytes_are_read_least_significant_first() {
    assert_eq!(u32_from_le(&[0, 0, 0, 0]), 0);
    assert_eq!(u32_from_le(&[1, 0, 0, 0]), 1);
    assert_eq!(u32_from_le(&[0x78, 0x56, 0x34, 0x12]), 0x1234_5678);
    assert_eq!(u32_from_le(&[255, 255, 255, 255]), u32::MAX);
    for bytes in [[1u8, 2, 3, 4], [0x10, 0, 0, 0], [0, 0, 0, 0x80], [9, 8, 7, 6]] {
        assert_eq!(u32_from_le(&bytes), u32::from_le_bytes(bytes));
    }
}

#[test]
fn stats_of_an_absent_path_are_not_found_and_no_error() {
    let req = file_stats(&share(), "nothing.txt").unwrap();
    assert_eq!(req.mode, look());
    assert!(file_stats_probed(req, &Err("Object Name Not Found (0xc0000034)".to_string())).is_none());
    let req = file_stats(&share(), "pipe").unwrap();
    assert!(file_stats_probed(req, &Ok(HandleTag::Other)).is_none());
}

#[test]
fn stats_open_the_object_as_what_the_probe_showed() {
    let req = file_stats(&share(), "d/f").unwrap();
    let (kind, next) = file_stats_probed(req, &Ok(HandleTag::File)).unwrap();
    assert_eq!(kind, Kind::File);
    assert_eq!(next.path, r"\\host\share\d\f");
    assert_eq!(next.mode, inspect(Kind::File));
    let req = file_stats(&share(), "").unwrap();
    let (kind, next) = file_stats_probed(req, &Ok(HandleTag::Directory)).unwrap();
    assert_eq!(kind, Kind::Dir);
    assert_eq!(next.path, r"\\host\share");
    assert_eq!(next.mode, inspect(Kind::Dir));
    assert!(file_stats_opened(Kind::File, Ok(HandleTag::File)).is_ok());
    assert!(file_stats_opened(Kind::Dir, Ok(HandleTag::Directory)).is_ok());
    assert_eq!(
        file_stats_opened(Kind::File, Ok(HandleTag::Directory)).unwrap_err().kind,
        ErrorKind::NotAFile
    );
    assert_eq!(
        file_stats_opened(Kind::Dir, Ok(HandleTag::File)).unwrap_err().kind,
        ErrorKind::NotADirectory
    );
    let failure = file_stats_opened(Kind::Dir, Err("sharing violation".to_string())).unwrap_err();
    assert_eq!(failure.kind, ErrorKind::OpenError);
    assert_eq!(failure.detail, "sharing violation");
}

#[test]
fn stats_report_the_size_that_the_session_gives() {
    let basic = BasicInfo {
        creation_time: UNIX_EPOCH_TICKS + 10_000_000,
        last_access_time: UNIX_EPOCH_TICKS + 3 * 10_000_000,
        last_write_time: UNIX_EPOCH_TICKS + 2 * 10_000_000 + 5,
        change_time: 0,
        file_attributes: [0x20, 0, 0, 0],
    };
    let basic = file_stats_basic(Ok(basic)).unwrap();
    let standard = StandardInfo { allocation_size: 4096, end_of_file: 1234, number_of_links: 2 };
    let stats = file_stats_done(Kind::File, basic, Ok(standard)).unwrap();
    assert_eq!(
        stats,
        FileStats {
            kind: Kind::File,
            size: 1234,
            allocation_size: 4096,
            nlink: 2,
            attributes: 0x20,
            mtime: 2,
            atime: 3,
            ctime: 0,
            btime: 1,
        }
    );
}

#[test]
fn stats_of_a_directory_carry_its_attributes() {
    let attributes = FileAttributes::new().with_directory(true).with_readonly(true);
    let basic = BasicInfo {
        creation_time: 1,
        last_access_time: u64::MAX,
        last_write_time: UNIX_EPOCH_TICKS,
        change_time: UNIX_EPOCH_TICKS + 86_400 * 10_000_000,
        file_attributes: attributes.into_bytes(),
    };
    let standard = StandardInfo { allocation_size: 0, end_of_file: 0, number_of_links: 1 };
    let stats = file_stats_done(Kind::Dir, basic, Ok(standard)).unwrap();
    assert_eq!(stats.kind, Kind::Dir);
    assert_eq!(stats.size, 0);
    assert_eq!(stats.attributes, 0x11);
    assert_eq!(stats.btime, 0);
    assert_eq!(stats.mtime, 0);
    assert_eq!(stats.ctime, 86_400);
    assert_eq!(stats.atime, u64::MAX / 10_000_000 - 11_644_473_600);
}

#[test]
fn failed_queries_are_query_errors() {
    let failure = file_stats_basic(Err("basic refused".to_string())).unwrap_err();
    assert_eq!(failure.kind, ErrorKind::QueryError);
    assert_eq!(failure.detail, "basic refused");
    let basic = BasicInfo {
        creation_time: 0,
        last_access_time: 0,
        last_write_time: 0,
        change_time: 0,
        file_attributes: [0; 4],
    };
    let failure = file_stats_done(Kind::File, basic, Err("standard refused".to_string())).unwrap_err();
    assert_eq!(failure.kind, ErrorKind::QueryError);
    assert_eq!(failure.detail, "standard refused");
}

#[test]
fn the_pattern_matches_every_entry() {
    assert_eq!(EVERY_ENTRY, "*");
}

#[test]
fn a_listing_reads_the_attributes_that_the_session_reports() {
    let dir = FileAttributes::new().with_directory(true).with_system(true).into_bytes();
    let file = FileAttributes::new().with_normal(true).into_bytes();
    let raw = vec![
        Some(DirEntry { name: "d".to_string(), file_attributes: dir }),
        Some(DirEntry { name: "f".to_string(), file_attributes: file }),
        Some(DirEntry { name: "high".to_string(), file_attributes: [0, 0x10, 0x10, 0x10] }),
    ];
    assert_eq!(
        names(raw),
        vec![
            ("d".to_string(), Kind::Dir),
            ("f".to_string(), Kind::File),
            ("high".to_string(), Kind::File),
        ]
    );
}
