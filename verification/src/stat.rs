use vstd::prelude::*;
use crate::address::ShareRoot;
use crate::failure::{ErrorKind, Failure};
use crate::probe::{open_at, opens};
use crate::request::{look, look_mode, HandleTag, OpenReply, OpenRequest};

verus! {

/// The size of an object and whether it is a directory.
#[derive(Clone, Copy, PartialEq, Eq, Structural, Debug)]
pub struct Stat {
    pub size: u64,
    pub is_directory: bool,
}

/// Starts a stat: the open of the path for reading.
pub fn stat(root: &ShareRoot, rel: &str) -> (r: Result<OpenRequest, Failure>)
    ensures
        opens(r, root.text(), rel@, look_mode()),
{
    open_at(root, rel, look())
}

/// Goes on after the open.
///
/// Whatever opened and is no file counts as a directory of size 0, and the
/// stat ends there. For a file nothing is known yet (`None`): it is to be
/// read to its end, and the bytes handed to `stat_done`. A failed open is
/// an `OpenError` with the session's text.
pub fn stat_opened(reply: OpenReply) -> (r: Result<Option<Stat>, Failure>)
    ensures
        match reply {
            Ok(HandleTag::File) => r == Ok::<Option<Stat>, Failure>(None),
            Ok(_) => r == Ok::<Option<Stat>, Failure>(
                Some(Stat { size: 0, is_directory: true }),
            ),
            Err(text) => r matches Err(f) && f.is(ErrorKind::OpenError, text@),
        },
{
    match reply {
        Ok(HandleTag::File) => Ok(None),
        Ok(_) => Ok(Some(Stat { size: 0, is_directory: true })),
        Err(text) => Err(Failure::reported(ErrorKind::OpenError, text)),
    }
}

/// Ends the stat of a file: its size is the number of bytes that were
/// read. A failed read is a `ReadError` with the session's text.
pub fn stat_done(reply: Result<Vec<u8>, String>) -> (r: Result<Stat, Failure>)
    ensures
        match reply {
            Ok(bytes) => r == Ok::<Stat, Failure>(
                Stat { size: bytes@.len() as u64, is_directory: false },
            ),
            Err(text) => r matches Err(f) && f.is(ErrorKind::ReadError, text@),
        },
{
    match reply {
        Ok(bytes) => Ok(Stat { size: bytes.len() as u64, is_directory: false }),
        Err(text) => Err(Failure::reported(ErrorKind::ReadError, text)),
    }
}

} // verus!
