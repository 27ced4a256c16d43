use vstd::prelude::*;
use crate::address::ShareRoot;
use crate::failure::{ErrorKind, Failure};
use crate::probe::{expect_handle, expects, open_at, opens, settle, settles};
use crate::request::{look, look_mode, HandleTag, OpenReply, OpenRequest};

verus! {

/// Starts reading a file: the open of the path for reading.
pub fn read_file(root: &ShareRoot, rel: &str) -> (r: Result<OpenRequest, Failure>)
    ensures
        opens(r, root.text(), rel@, look_mode()),
{
    open_at(root, rel, look())
}

/// Goes on after the open: on `Ok`, the handle is a file and is to be read
/// to its end.
pub fn read_file_opened(reply: OpenReply) -> (r: Result<(), Failure>)
    ensures
        expects(reply, HandleTag::File, r),
{
    expect_handle(reply, HandleTag::File)
}

/// Ends the read: the bytes that were read, all of them and unchanged, or
/// a `ReadError` with the session's text.
pub fn read_file_done(reply: Result<Vec<u8>, String>) -> (r: Result<Vec<u8>, Failure>)
    ensures
        settles(reply, ErrorKind::ReadError, r),
{
    settle(reply, ErrorKind::ReadError)
}

} // verus!
