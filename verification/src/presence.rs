use vstd::prelude::*;
use crate::address::ShareRoot;
use crate::failure::{ErrorKind, Failure};
use crate::path::{has_parent_ref, rendered, segments};
use crate::probe::{kind_shown, open_for_kind};
use crate::remote::resolve;
use crate::request::{look, look_mode, Kind, OpenReply, OpenRequest};

verus! {

/// What is found at a path.
#[derive(Clone, Copy, PartialEq, Eq, Structural, Debug)]
pub enum Presence {
    File,
    Directory,
    NotFound,
}

/// How an existence check goes on once the path is resolved.
#[derive(Debug)]
pub enum ExistsStep {
    /// The answer is known without asking the session.
    Known(Presence),
    /// The session has to be asked: perform the open, and hand its answer
    /// to `path_exists_probed`.
    Probe(OpenRequest),
}

/// What a probe's answer says of the path.
pub open spec fn presence_shown(reply: OpenReply) -> Presence {
    match kind_shown(reply) {
        Some(Kind::File) => Presence::File,
        Some(Kind::Dir) => Presence::Directory,
        None => Presence::NotFound,
    }
}

/// Starts an existence check.
///
/// The share's root is a directory, and no request is made for it. Any
/// other path is probed. A path with a `..` segment is a `BadPath`.
pub fn path_exists(root: &ShareRoot, rel: &str) -> (r: Result<ExistsStep, Failure>)
    ensures
        match r {
            Ok(ExistsStep::Known(presence)) => {
                &&& !has_parent_ref(rel@)
                &&& segments(rel@).len() == 0
                &&& presence == Presence::Directory
            },
            Ok(ExistsStep::Probe(req)) => {
                &&& !has_parent_ref(rel@)
                &&& segments(rel@).len() > 0
                &&& req.path@ == rendered(root.text(), segments(rel@))
                &&& req.mode == look_mode()
            },
            Err(f) => has_parent_ref(rel@) && f.is_bare(ErrorKind::BadPath),
        },
{
    match resolve(root, rel) {
        Ok(path) => {
            if path.is_root() {
                Ok(ExistsStep::Known(Presence::Directory))
            } else {
                Ok(ExistsStep::Probe(OpenRequest { path: path.to_text(), mode: look() }))
            }
        },
        Err(f) => Err(f),
    }
}

/// Ends an existence check with the probe's answer.
pub fn path_exists_probed(reply: &OpenReply) -> (presence: Presence)
    ensures
        presence == presence_shown(*reply),
{
    match open_for_kind(reply) {
        Some(Kind::File) => Presence::File,
        Some(Kind::Dir) => Presence::Directory,
        None => Presence::NotFound,
    }
}

} // verus!
