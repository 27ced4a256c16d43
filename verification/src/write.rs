use vstd::prelude::*;
use crate::address::ShareRoot;
use crate::failure::{ErrorKind, Failure};
use crate::probe::{expect_handle, expects, open_at, opens, settle, settles};
use crate::request::{overwrite, overwrite_mode, HandleTag, OpenReply, OpenRequest};

verus! {

/// Starts writing a file: the open of the path for reading and writing,
/// which empties the file if it exists and creates it if it does not.
pub fn write_file(root: &ShareRoot, rel: &str) -> (r: Result<OpenRequest, Failure>)
    ensures
        opens(r, root.text(), rel@, overwrite_mode()),
{
    open_at(root, rel, overwrite())
}

/// Goes on after the open: on `Ok`, the handle is a file and the whole
/// payload is to be written to it.
pub fn write_file_opened(reply: OpenReply) -> (r: Result<(), Failure>)
    ensures
        expects(reply, HandleTag::File, r),
{
    expect_handle(reply, HandleTag::File)
}

/// Ends the write: success, or a `WriteError` with the session's text.
pub fn write_file_done(reply: Result<(), String>) -> (r: Result<(), Failure>)
    ensures
        settles(reply, ErrorKind::WriteError, r),
{
    settle(reply, ErrorKind::WriteError)
}

} // verus!
