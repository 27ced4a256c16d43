use rumbex_smb_native::address::{connect, connect_done};
use rumbex_smb_native::failure::ErrorKind;
use smb::UncPath;
use std::str::FromStr;

fn root_text(address: &str) -> String {
    connect(address).unwrap().to_text()
}

#[test]
fn a_share_address_is_its_own_root() {
    assert_eq!(root_text(r"\\host\share"), r"\\host\share");
}

#[test]
fn slashes_become_backslashes() {
    assert_eq!(root_text("//host/share"), r"\\host\share");
    assert_eq!(root_text("//host/share/a/b"), r"\\host\share\a\b");
    assert_eq!(root_text(r"\\host/share\a/b"), r"\\host\share\a\b");
}

#[test]
fn a_root_may_lack_share_and_path() {
    assert_eq!(root_text(r"\\host"), r"\\host");
    assert_eq!(root_text(r"\\"), r"\\");
    assert_eq!(root_text(r"\\host\"), r"\\host\");
    assert_eq!(root_text(r"\\host\share\"), r"\\host\share\");
    assert_eq!(root_text(r"\\host\\x"), r"\\host\\x");
}

#[test]
fn an_address_without_the_prefix_is_bad() {
    for address in ["", "a", r"\", "/", r"\server", "/server", r"\/host\share", r"/\host", "host\\share"] {
        let failure = connect(address).unwrap_err();
        assert_eq!(failure.kind, ErrorKind::BadAddress);
        assert_eq!(failure.detail, "");
    }
}

#[test]
fn the_root_reads_as_the_parser_writes_it() {
    for address in [
        r"\\server\share\path",
        "//server/share/path",
        r"\\server\share",
        "//server",
        r"\\s\h\a\b/c/",
        r"\\\\",
        "//é/ü/ß/",
        r"\\host\share\\",
    ] {
        let parsed = UncPath::from_str(address).unwrap();
        assert_eq!(root_text(address), parsed.to_string());
    }
}

#[test]
fn the_root_is_accepted_exactly_when_the_parser_accepts() {
    for address in [r"\\a", "//a", r"\a", r"/\a", r"\/a", "", r"\", r"\\", "ab"] {
        assert_eq!(connect(address).is_ok(), UncPath::from_str(address).is_ok());
    }
}

#[test]
fn a_refused_session_is_a_connect_error() {
    assert!(connect_done(Ok(())).is_ok());
    let failure = connect_done(Err("Logon Failure (0xc000006d)".to_string())).unwrap_err();
    assert_eq!(failure.kind, ErrorKind::ConnectError);
    assert_eq!(failure.detail, "Logon Failure (0xc000006d)");
}
