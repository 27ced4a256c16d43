use vstd::prelude::*;
use crate::address::ShareRoot;
use crate::failure::{ErrorKind, Failure};
use crate::path::{has_parent_ref, rendered, segments};
use crate::remote::resolve;
use crate::request::{look, HandleTag, Kind, OpenMode, OpenReply, OpenRequest};

verus! {

/// Whether `r` is what opening `rel` under `root` in the given mode comes
/// to: the request for the resolved path, or `BadPath` for a path with a
/// `..` segment.
pub open spec fn opens(
    r: Result<OpenRequest, Failure>,
    root: Seq<char>,
    rel: Seq<char>,
    mode: OpenMode,
) -> bool {
    match r {
        Ok(req) => {
            &&& !has_parent_ref(rel)
            &&& req.path@ == rendered(root, segments(rel))
            &&& req.mode == mode
        },
        Err(f) => has_parent_ref(rel) && f.is_bare(ErrorKind::BadPath),
    }
}

/// Whether `r` is what opening the object that `rel` names under `root`
/// comes to: as `opens`, but a path that names nothing below the root is a
/// `BadPath` too.
pub open spec fn opens_named(
    r: Result<OpenRequest, Failure>,
    root: Seq<char>,
    rel: Seq<char>,
    mode: OpenMode,
) -> bool {
    match r {
        Ok(req) => {
            &&& !has_parent_ref(rel)
            &&& segments(rel).len() > 0
            &&& req.path@ == rendered(root, segments(rel))
            &&& req.mode == mode
        },
        Err(f) => (has_parent_ref(rel) || segments(rel).len() == 0) && f.is_bare(
            ErrorKind::BadPath,
        ),
    }
}

/// The kind of object that an answer to an open shows: a file or a
/// directory where the open gave such a handle, and nothing where it gave
/// another handle or failed, for whatever reason.
pub open spec fn kind_shown(reply: OpenReply) -> Option<Kind> {
    match reply {
        Ok(HandleTag::File) => Some(Kind::File),
        Ok(HandleTag::Directory) => Some(Kind::Dir),
        _ => None,
    }
}

/// The kind of error that an opened handle of the wrong kind is.
pub open spec fn mismatch(want: HandleTag) -> ErrorKind {
    if want == HandleTag::Directory {
        ErrorKind::NotADirectory
    } else {
        ErrorKind::NotAFile
    }
}

/// Whether `r` is the verdict on an open that must give a handle of the
/// kind `want`.
pub open spec fn expects(reply: OpenReply, want: HandleTag, r: Result<(), Failure>) -> bool {
    match reply {
        Ok(tag) => if tag == want {
            r is Ok
        } else {
            r matches Err(f) && f.is_bare(mismatch(want))
        },
        Err(text) => r matches Err(f) && f.is(ErrorKind::OpenError, text@),
    }
}

/// Whether `r` is the answer `reply` with a failure turned into one of the
/// given kind.
pub open spec fn settles<T>(reply: Result<T, String>, kind: ErrorKind, r: Result<T, Failure>) -> bool {
    match reply {
        Ok(value) => r == Ok::<T, Failure>(value),
        Err(text) => r matches Err(f) && f.is(kind, text@),
    }
}

/// The open of `rel` under `root` in the given mode.
pub fn open_at(root: &ShareRoot, rel: &str, mode: OpenMode) -> (r: Result<OpenRequest, Failure>)
    ensures
        opens(r, root.text(), rel@, mode),
{
    match resolve(root, rel) {
        Ok(path) => Ok(OpenRequest { path: path.to_text(), mode }),
        Err(f) => Err(f),
    }
}

/// The open of the object that `rel` names under `root`, in the given mode.
pub fn open_named(root: &ShareRoot, rel: &str, mode: OpenMode) -> (r: Result<
    OpenRequest,
    Failure,
>)
    ensures
        opens_named(r, root.text(), rel@, mode),
{
    match resolve(root, rel) {
        Ok(path) => {
            if path.is_root() {
                Err(Failure::bare(ErrorKind::BadPath))
            } else {
                Ok(OpenRequest { path: path.to_text(), mode })
            }
        },
        Err(f) => Err(f),
    }
}

/// The open that finds out what a path names: for reading, without saying
/// whether a file or a directory is meant.
pub fn probe(root: &ShareRoot, rel: &str) -> (r: Result<OpenRequest, Failure>)
    ensures
        opens(r, root.text(), rel@, crate::request::look_mode()),
{
    open_at(root, rel, look())
}

/// What the answer to a probe shows at the path: a file, a directory, or
/// nothing. A probe that failed shows nothing, whatever the reason.
pub fn open_for_kind(reply: &OpenReply) -> (kind: Option<Kind>)
    ensures
        kind == kind_shown(*reply),
{
    match reply {
        Ok(HandleTag::File) => Some(Kind::File),
        Ok(HandleTag::Directory) => Some(Kind::Dir),
        _ => None,
    }
}

/// The verdict on an open that must give a handle of the kind `want`: a
/// failed open is an `OpenError` with the session's text, a handle of
/// another kind is `NotAFile` or `NotADirectory`.
pub fn expect_handle(reply: OpenReply, want: HandleTag) -> (r: Result<(), Failure>)
    ensures
        expects(reply, want, r),
        r matches Err(f) ==> f.kind.is_open_failure(),
{
    match reply {
        Ok(tag) => {
            if tag == want {
                Ok(())
            } else if want == HandleTag::Directory {
                Err(Failure::bare(ErrorKind::NotADirectory))
            } else {
                Err(Failure::bare(ErrorKind::NotAFile))
            }
        },
        Err(text) => Err(Failure::reported(ErrorKind::OpenError, text)),
    }
}

/// An answer of the session with its failure, if it is one, turned into a
/// failure of the given kind that carries the session's text.
pub fn settle<T>(reply: Result<T, String>, kind: ErrorKind) -> (r: Result<T, Failure>)
    ensures
        settles(reply, kind, r),
{
    match reply {
        Ok(value) => Ok(value),
        Err(text) => Err(Failure::reported(kind, text)),
    }
}

} // verus!
