use vstd::prelude::*;
use crate::address::{backslashed, ShareRoot};
use crate::failure::{ErrorKind, Failure};
use crate::path::{has_parent_ref, rendered, segments, trim_separators, trimmed};
use crate::probe::{open_named, settle, settles};
use crate::request::{renaming, rename_mode, HandleTag, Kind, OpenReply, OpenRequest};
use crate::text::{chars_of, string_of};

verus! {

/// The new name of an object, as the session takes it.
#[derive(Clone, Debug)]
pub struct RenameInfo {
    /// Whether an object that has the new name already is replaced.
    pub replace_if_exists: bool,
    /// The directory that the new name is relative to; 0 for the share.
    pub root_directory: u64,
    /// The new name, relative to the share, with backslashes.
    pub file_name: String,
}

/// A rename that is ready to start.
#[derive(Debug)]
pub struct RenamePlan {
    /// The open of the object to rename, as a file.
    pub open: OpenRequest,
    /// The update to apply to the handle.
    pub info: RenameInfo,
}

/// How a rename goes on after the object was opened as a file.
#[derive(Debug)]
pub enum RenameStep {
    /// The handle is a file: apply the update to it.
    Apply,
    /// The open failed: open the object as a directory, and hand the answer
    /// to `rename_reopened`.
    Retry(OpenRequest),
    /// The rename has failed.
    Fail(Failure),
}

/// The name under which the session is told the destination: the given
/// name without the separators at its ends, with backslashes for slashes.
pub open spec fn target_name(to: Seq<char>) -> Seq<char> {
    backslashed(trimmed(to))
}

/// A text with each slash turned into a backslash.
pub fn to_backslashes(text: &Vec<char>) -> (out: Vec<char>)
    ensures
        out@ == backslashed(text@),
{
    let mut out: Vec<char> = Vec::new();
    let mut i: usize = 0;
    while i < text.len()
        invariant
            i <= text.len(),
            out@ == backslashed(text@.take(i as int)),
        decreases text.len() - i,
    {
        let c = text[i];
        out.push(
            if c == '/' {
                '\\'
            } else {
                c
            },
        );
        assert(out@ =~= backslashed(text@.take(i + 1)));
        i += 1;
    }
    assert(text@.take(text.len() as int) =~= text@);
    out
}

/// Starts a rename.
///
/// Only the source is resolved against the share's root. The destination
/// is a name relative to the share: it is handed on as it is, but for the
/// separators at its ends and the direction of its slashes. The source is
/// first opened as a file. A source that names nothing below the root or
/// holds a `..` segment, and a destination that is empty once trimmed, are
/// a `BadPath`.
pub fn rename(root: &ShareRoot, from: &str, to: &str, replace_if_exists: bool) -> (r: Result<
    RenamePlan,
    Failure,
>)
    ensures
        match r {
            Ok(plan) => {
                &&& !has_parent_ref(from@)
                &&& segments(from@).len() > 0
                &&& trimmed(to@).len() > 0
                &&& plan.open.path@ == rendered(root.text(), segments(from@))
                &&& plan.open.mode == rename_mode(Kind::File)
                &&& plan.info.replace_if_exists == replace_if_exists
                &&& plan.info.root_directory == 0
                &&& plan.info.file_name@ == target_name(to@)
            },
            Err(f) => {
                &&& has_parent_ref(from@) || segments(from@).len() == 0 || trimmed(to@).len() == 0
                &&& f.is_bare(ErrorKind::BadPath)
            },
        },
{
    let open = match open_named(root, from, renaming(Kind::File)) {
        Ok(open) => open,
        Err(f) => {
            return Err(f);
        },
    };
    let to_chars = chars_of(to);
    let name = trim_separators(&to_chars);
    if name.len() == 0 {
        return Err(Failure::bare(ErrorKind::BadPath));
    }
    let name = to_backslashes(&name);
    Ok(
        RenamePlan {
            open,
            info: RenameInfo { replace_if_exists, root_directory: 0, file_name: string_of(&name) },
        },
    )
}

/// Goes on after the source was opened as a file.
///
/// A file handle takes the update. Where the open failed, for whatever
/// reason, the source is opened once more, as a directory. A handle that
/// is no file is `NotAFile`.
pub fn rename_opened(first: OpenRequest, reply: OpenReply) -> (step: RenameStep)
    ensures
        match reply {
            Ok(HandleTag::File) => step is Apply,
            Ok(_) => step matches RenameStep::Fail(f) && f.is_bare(ErrorKind::NotAFile),
            Err(_) => step matches RenameStep::Retry(req) && req.path@ == first.path@ && req.mode
                == rename_mode(Kind::Dir),
        },
{
    match reply {
        Ok(HandleTag::File) => RenameStep::Apply,
        Ok(_) => RenameStep::Fail(Failure::bare(ErrorKind::NotAFile)),
        Err(_) => RenameStep::Retry(OpenRequest { path: first.path, mode: renaming(Kind::Dir) }),
    }
}

/// Goes on after the source was opened as a directory: on `Ok`, the handle
/// takes the update.
///
/// A failed open is a `RenameOpenError` with the session's text; a handle
/// that is no directory is `NotADirectory`.
pub fn rename_reopened(reply: OpenReply) -> (r: Result<(), Failure>)
    ensures
        match reply {
            Ok(HandleTag::Directory) => r is Ok,
            Ok(_) => r matches Err(f) && f.is_bare(ErrorKind::NotADirectory),
            Err(text) => r matches Err(f) && f.is(ErrorKind::RenameOpenError, text@),
        },
{
    match reply {
        Ok(HandleTag::Directory) => Ok(()),
        Ok(_) => Err(Failure::bare(ErrorKind::NotADirectory)),
        Err(text) => Err(Failure::reported(ErrorKind::RenameOpenError, text)),
    }
}

/// Ends the rename: success if the session took the update, else a
/// `RenameError` with its text.
pub fn rename_done(reply: Result<(), String>) -> (r: Result<(), Failure>)
    ensures
        settles(reply, ErrorKind::RenameError, r),
{
    settle(reply, ErrorKind::RenameError)
}

} // verus!
