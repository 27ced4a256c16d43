use rumbex_smb_native::address::{connect, ShareRoot};
use rumbex_smb_native::failure::ErrorKind;
use rumbex_smb_native::path::{separates, split_segments, trim_separators};
use rumbex_smb_native::remote::{push_all, resolve, strip_trailing_backslashes};
use rumbex_smb_native::text::{chars_of, string_of};
use smb::UncPath;
use std::str::FromStr;

fn share() -> ShareRoot {
    connect(r"\\host\share").unwrap()
}

fn resolved(rel: &str) -> String {
    resolve(&share(), rel).unwrap().to_text()
}

fn chars(s: &str) -> Vec<char> {
    s.chars().collect()
}

fn segments(rel: &str) -> Option<Vec<String>> {
    split_segments(&chars(rel)).map(|segs| segs.iter().map(|s| s.iter().collect()).collect())
}

#[test]
fn segments_are_joined_with_single_backslashes() {
    assert_eq!(resolved("a/b/c"), r"\\host\share\a\b\c");
    assert_eq!(resolved(r"a\b\c"), r"\\host\share\a\b\c");
    assert_eq!(resolved(r"a/b\c"), r"\\host\share\a\b\c");
    assert_eq!(resolved("file.txt"), r"\\host\share\file.txt");
}

#[test]
fn separators_at_the_ends_are_stripped() {
    assert_eq!(resolved("/a/b/"), r"\\host\share\a\b");
    assert_eq!(resolved(r"\\a\b\\"), r"\\host\share\a\b");
    assert_eq!(resolved(r"/\/a"), r"\\host\share\a");
}

#[test]
fn empty_and_dot_segments_are_dropped() {
    assert_eq!(resolved("a//b"), r"\\host\share\a\b");
    assert_eq!(resolved("./a/./b/."), r"\\host\share\a\b");
    assert_eq!(resolved(r"a\.\b"), r"\\host\share\a\b");
}

#[test]
fn an_empty_path_is_the_root_unchanged() {
    for rel in ["", "/", r"\", "//", r"\/\", ".", "./.", "/./"] {
        let path = resolve(&share(), rel).unwrap();
        assert!(path.is_root());
        assert_eq!(path.depth(), 0);
        assert_eq!(path.to_text(), r"\\host\share");
    }
    let with_slash = connect(r"\\host\share\").unwrap();
    assert_eq!(resolve(&with_slash, "").unwrap().to_text(), r"\\host\share\");
}

#[test]
fn trailing_backslashes_of_the_root_are_not_doubled() {
    let with_slash = connect(r"\\host\share\").unwrap();
    assert_eq!(resolve(&with_slash, "a").unwrap().to_text(), r"\\host\share\a");
    let deep = connect(r"\\host\share\base\\").unwrap();
    assert_eq!(resolve(&deep, "a/b").unwrap().to_text(), r"\\host\share\base\a\b");
}

#[test]
fn parent_references_are_rejected_wherever_they_stand() {
    for rel in [
        "..", "../a", "a/..", "a/../b", r"..\a", r"a\..", r"a\..\b", r"a/..\b", r"a\../b",
        "/..", "../", "/../", r"\..\", "./..", "a/b/c/..", "..//", "a//..//b",
    ] {
        let failure = resolve(&share(), rel).unwrap_err();
        assert_eq!(failure.kind, ErrorKind::BadPath);
        assert_eq!(failure.detail, "");
    }
}

#[test]
fn names_that_only_hold_dots_are_kept() {
    assert_eq!(resolved("..."), r"\\host\share\...");
    assert_eq!(resolved("a..b"), r"\\host\share\a..b");
    assert_eq!(resolved("..a"), r"\\host\share\..a");
    assert_eq!(resolved("a.."), r"\\host\share\a..");
    assert_eq!(resolved(".a/b."), r"\\host\share\.a\b.");
    assert_eq!(resolved(". ."), r"\\host\share\. .");
}

#[test]
fn depth_counts_the_segments() {
    let path = resolve(&share(), "a/./b//c").unwrap();
    assert_eq!(path.depth(), 3);
    assert!(!path.is_root());
}

#[test]
fn ancestors_are_prefixes() {
    let path = resolve(&share(), "a/b/c").unwrap();
    assert_eq!(path.ancestor(0), r"\\host\share");
    assert_eq!(path.ancestor(1), r"\\host\share\a");
    assert_eq!(path.ancestor(2), r"\\host\share\a\b");
    assert_eq!(path.ancestor(3), r"\\host\share\a\b\c");
    assert_eq!(path.ancestor(4), r"\\host\share\a\b\c");
    assert_eq!(path.ancestor(usize::MAX), r"\\host\share\a\b\c");
}

#[test]
fn a_resolved_path_parses_under_the_same_share() {
    for rel in ["a", "a/b", r"x\y\z.txt", "ä/ö"] {
        let text = resolved(rel);
        let unc = UncPath::from_str(&text).unwrap();
        assert_eq!(unc.server(), "host");
        assert_eq!(unc.share(), Some("share"));
        assert_eq!(unc.to_string(), text);
    }
}

#[test]
fn splitting_keeps_order_and_drops_noise() {
    assert_eq!(segments("a/b"), Some(vec!["a".to_string(), "b".to_string()]));
    assert_eq!(segments(r"\a\\.\b/"), Some(vec!["a".to_string(), "b".to_string()]));
    assert_eq!(segments(""), Some(vec![]));
    assert_eq!(segments("."), Some(vec![]));
    assert_eq!(segments(".."), None);
    assert_eq!(segments("a/.."), None);
    assert_eq!(segments("../a"), None);
    assert_eq!(segments("a/..b/c"), Some(vec!["a".to_string(), "..b".to_string(), "c".to_string()]));
}

#[test]
fn both_separator_styles_separate() {
    assert!(separates('/'));
    assert!(separates('\\'));
    assert!(!separates('.'));
    assert!(!separates(':'));
    assert!(!separates('|'));
}

#[test]
fn trimming_strips_both_ends_only() {
    assert_eq!(trim_separators(&chars("/a/b/")), chars("a/b"));
    assert_eq!(trim_separators(&chars(r"\\a\/b/\")), chars(r"a\/b"));
    assert_eq!(trim_separators(&chars("a")), chars("a"));
    assert_eq!(trim_separators(&chars("")), chars(""));
    assert_eq!(trim_separators(&chars("///")), chars(""));
    assert_eq!(trim_separators(&chars("/ /")), chars(" "));
}

#[test]
fn trimming_does_not_change_the_resolved_path() {
    for rel in ["/a/b/", r"\\x\\", "a", "//a//b//", "/./a/"] {
        let trimmed: String = trim_separators(&chars(rel)).into_iter().collect();
        assert_eq!(resolved(rel), resolved(&trimmed));
    }
    for rel in ["/../", r"\a\..\", "//..//"] {
        let trimmed: String = trim_separators(&chars(rel)).into_iter().collect();
        assert!(resolve(&share(), rel).is_err());
        assert!(resolve(&share(), &trimmed).is_err());
    }
}

#[test]
fn only_backslashes_are_stripped_from_a_root() {
    assert_eq!(strip_trailing_backslashes(&chars(r"\\h\s\\")), chars(r"\\h\s"));
    assert_eq!(strip_trailing_backslashes(&chars(r"\\h\s/")), chars(r"\\h\s/"));
    assert_eq!(strip_trailing_backslashes(&chars(r"\\")), chars(""));
    assert_eq!(strip_trailing_backslashes(&chars("")), chars(""));
}

#[test]
fn characters_and_strings_convert_both_ways() {
    assert_eq!(chars_of("a\\é/"), vec!['a', '\\', 'é', '/']);
    assert_eq!(chars_of(""), Vec::<char>::new());
    assert_eq!(string_of(&vec!['x', 'ü', '.']), "xü.");
    assert_eq!(string_of(&vec![]), "");
    let mut out = vec!['a'];
    push_all(&mut out, &vec!['b', 'c']);
    assert_eq!(out, vec!['a', 'b', 'c']);
    push_all(&mut out, &vec![]);
    assert_eq!(out, vec!['a', 'b', 'c']);
}
