use vstd::prelude::*;
use crate::address::ShareRoot;
use crate::attributes::{le_value, u32_from_le};
use crate::failure::{ErrorKind, Failure};
use crate::probe::{kind_shown, open_at, open_for_kind, opens, settle, settles};
use crate::request::{inspect, inspect_mode, look, look_mode, HandleTag, Kind, OpenReply, OpenRequest};
use crate::time::{filetime_to_unix_seconds, unix_seconds};

verus! {

/// The times and attributes of an object, as the session reports them.
#[derive(Clone, Copy, Debug)]
pub struct BasicInfo {
    /// Ticks of 100 ns since 1601 at which the object was created.
    pub creation_time: u64,
    /// Ticks at which the object was last read.
    pub last_access_time: u64,
    /// Ticks at which the object's content was last written.
    pub last_write_time: u64,
    /// Ticks at which the object was last changed in any way.
    pub change_time: u64,
    /// The attribute flags, least significant byte first.
    pub file_attributes: [u8; 4],
}

/// The sizes and the link count of an object, as the session reports them.
#[derive(Clone, Copy, PartialEq, Eq, Structural, Debug)]
pub struct StandardInfo {
    pub allocation_size: u64,
    pub end_of_file: u64,
    pub number_of_links: u32,
}

/// What is known of an object at one moment.
#[derive(Clone, Copy, PartialEq, Eq, Structural, Debug)]
pub struct FileStats {
    pub kind: Kind,
    /// The length of the content in bytes.
    pub size: u64,
    /// The bytes set aside for the content.
    pub allocation_size: u64,
    /// The number of names that the object has.
    pub nlink: u32,
    /// The attribute flags, as the protocol numbers them.
    pub attributes: u32,
    /// Seconds since 1970 at which the content was last written.
    pub mtime: u64,
    /// Seconds since 1970 at which the object was last read.
    pub atime: u64,
    /// Seconds since 1970 at which the object was last changed.
    pub ctime: u64,
    /// Seconds since 1970 at which the object was created.
    pub btime: u64,
}

/// The statistics that the two reports on an object of a known kind come to.
pub open spec fn stats_of(kind: Kind, basic: BasicInfo, standard: StandardInfo) -> FileStats {
    FileStats {
        kind,
        size: standard.end_of_file,
        allocation_size: standard.allocation_size,
        nlink: standard.number_of_links,
        attributes: le_value(basic.file_attributes@) as u32,
        mtime: unix_seconds(basic.last_write_time as nat) as u64,
        atime: unix_seconds(basic.last_access_time as nat) as u64,
        ctime: unix_seconds(basic.change_time as nat) as u64,
        btime: unix_seconds(basic.creation_time as nat) as u64,
    }
}

/// The handle that an object of a given kind opens as.
pub open spec fn handle_of(kind: Kind) -> HandleTag {
    match kind {
        Kind::File => HandleTag::File,
        Kind::Dir => HandleTag::Directory,
    }
}

/// Starts the gathering of an object's statistics: the probe that finds
/// out what the path names.
pub fn file_stats(root: &ShareRoot, rel: &str) -> (r: Result<OpenRequest, Failure>)
    ensures
        opens(r, root.text(), rel@, look_mode()),
{
    open_at(root, rel, look())
}

/// Goes on after the probe.
///
/// Where the probe shows nothing at the path, the outcome is that nothing
/// was found (`None`), which is no error. Else the object is to be opened
/// once more for reading, as the kind that the probe showed.
pub fn file_stats_probed(probe: OpenRequest, reply: &OpenReply) -> (next: Option<
    (Kind, OpenRequest),
>)
    ensures
        match kind_shown(*reply) {
            Some(kind) => next matches Some((k, req)) && k == kind && req.path@ == probe.path@
                && req.mode == inspect_mode(kind),
            None => next is None,
        },
{
    match open_for_kind(reply) {
        Some(kind) => Some((kind, OpenRequest { path: probe.path, mode: inspect(kind) })),
        None => None,
    }
}

/// Goes on after the second open: on `Ok`, the handle is of the kind that
/// the probe showed, and is to be asked for its times and attributes.
///
/// A failed open is an `OpenError` with the session's text. A handle of
/// another kind is `NotAFile` where a file was meant, and `NotADirectory`
/// where a directory was.
pub fn file_stats_opened(kind: Kind, reply: OpenReply) -> (r: Result<(), Failure>)
    ensures
        crate::probe::expects(reply, handle_of(kind), r),
{
    let want = match kind {
        Kind::File => HandleTag::File,
        Kind::Dir => HandleTag::Directory,
    };
    crate::probe::expect_handle(reply, want)
}

/// Goes on after the first query: on `Ok`, the same handle is to be asked
/// for its sizes and link count. A failed query is a `QueryError` with the
/// session's text.
pub fn file_stats_basic(reply: Result<BasicInfo, String>) -> (r: Result<BasicInfo, Failure>)
    ensures
        settles(reply, ErrorKind::QueryError, r),
{
    settle(reply, ErrorKind::QueryError)
}

/// Ends the gathering with the answer to the second query.
///
/// The size is the end of the file that the session reports, and each time
/// is given in whole seconds since 1970. A failed query is a `QueryError`
/// with the session's text.
pub fn file_stats_done(kind: Kind, basic: BasicInfo, reply: Result<StandardInfo, String>) -> (r:
    Result<FileStats, Failure>)
    ensures
        match reply {
            Ok(standard) => r == Ok::<FileStats, Failure>(stats_of(kind, basic, standard)),
            Err(text) => r matches Err(f) && f.is(ErrorKind::QueryError, text@),
        },
{
    match reply {
        Ok(standard) => Ok(
            FileStats {
                kind,
                size: standard.end_of_file,
                allocation_size: standard.allocation_size,
                nlink: standard.number_of_links,
                attributes: u32_from_le(&basic.file_attributes),
                mtime: filetime_to_unix_seconds(basic.last_write_time),
                atime: filetime_to_unix_seconds(basic.last_access_time),
                ctime: filetime_to_unix_seconds(basic.change_time),
                btime: filetime_to_unix_seconds(basic.creation_time),
            },
        ),
        Err(text) => Err(Failure::reported(ErrorKind::QueryError, text)),
    }
}

} // verus!
