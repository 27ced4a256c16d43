use vstd::prelude::*;
use crate::address::ShareRoot;
use crate::failure::{ErrorKind, Failure};
use crate::probe::{kind_shown, open_for_kind, open_named, opens_named};
use crate::request::{delete, delete_mode, look, look_mode, OpenReply, OpenRequest};
use crate::status::{
    carries_status, lemma_status_unique, ntstatus_from_err_display, STATUS_DELETE_PENDING,
    STATUS_DIRECTORY_NOT_EMPTY, STATUS_OBJECT_NAME_NOT_FOUND,
};

verus! {

/// Whether a refusal to open an object for deletion means that the object
/// is gone already, or about to go.
pub open spec fn already_gone(text: Seq<char>) -> bool {
    carries_status(text, STATUS_OBJECT_NAME_NOT_FOUND) || carries_status(
        text,
        STATUS_DELETE_PENDING,
    )
}

/// Whether a refusal to open a directory for deletion means that it still
/// has entries.
pub open spec fn not_empty(text: Seq<char>) -> bool {
    carries_status(text, STATUS_DIRECTORY_NOT_EMPTY)
}

/// Starts a deletion: the probe that finds out what the path names.
///
/// The share's root cannot be deleted: a path that names nothing below it
/// is a `BadPath`, as is one with a `..` segment.
pub fn rm(root: &ShareRoot, rel: &str) -> (r: Result<OpenRequest, Failure>)
    ensures
        opens_named(r, root.text(), rel@, look_mode()),
{
    open_named(root, rel, look())
}

/// Goes on after the probe.
///
/// Where the probe shows nothing at the path, nothing is left to do
/// (`None`): the deletion has succeeded. Else the object is to be opened
/// once more, as the kind that the probe showed, so that it is deleted when
/// the handle is released.
pub fn rm_probed(probe: OpenRequest, reply: &OpenReply) -> (next: Option<OpenRequest>)
    ensures
        match kind_shown(*reply) {
            Some(kind) => next matches Some(req) && req.path@ == probe.path@ && req.mode
                == delete_mode(kind),
            None => next is None,
        },
{
    match open_for_kind(reply) {
        Some(kind) => Some(OpenRequest { path: probe.path, mode: delete(kind) }),
        None => None,
    }
}

/// Ends a deletion with the answer to the second open.
///
/// A handle is success: the object goes when the handle is released. A
/// refusal whose status says that the object was not found, or is being
/// deleted, is success too. One whose status says that the directory is
/// not empty is `DirectoryNotEmpty`. Any other refusal is a `DeleteError`
/// with the session's text.
pub fn rm_done(reply: OpenReply) -> (r: Result<(), Failure>)
    ensures
        match reply {
            Ok(_) => r is Ok,
            Err(text) => if already_gone(text@) {
                r is Ok
            } else if not_empty(text@) {
                r matches Err(f) && f.is_bare(ErrorKind::DirectoryNotEmpty)
            } else {
                r matches Err(f) && f.is(ErrorKind::DeleteError, text@)
            },
        },
{
    match reply {
        Ok(_) => Ok(()),
        Err(text) => {
            let code = ntstatus_from_err_display(text.as_str());
            proof {
                if let Some(c) = code {
                    if carries_status(text@, STATUS_OBJECT_NAME_NOT_FOUND) {
                        lemma_status_unique(text@, c, STATUS_OBJECT_NAME_NOT_FOUND);
                    }
                    if carries_status(text@, STATUS_DELETE_PENDING) {
                        lemma_status_unique(text@, c, STATUS_DELETE_PENDING);
                    }
                    if carries_status(text@, STATUS_DIRECTORY_NOT_EMPTY) {
                        lemma_status_unique(text@, c, STATUS_DIRECTORY_NOT_EMPTY);
                    }
                }
            }
            match code {
                Some(c) => {
                    if c == STATUS_OBJECT_NAME_NOT_FOUND || c == STATUS_DELETE_PENDING {
                        Ok(())
                    } else if c == STATUS_DIRECTORY_NOT_EMPTY {
                        Err(Failure::bare(ErrorKind::DirectoryNotEmpty))
                    } else {
                        Err(Failure::reported(ErrorKind::DeleteError, text))
                    }
                },
                None => Err(Failure::reported(ErrorKind::DeleteError, text)),
            }
        },
    }
}

} // verus!
