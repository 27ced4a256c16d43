use vstd::prelude::*;
use crate::address::ShareRoot;
use crate::failure::{ErrorKind, Failure};
use crate::path::{has_parent_ref, rendered, segments};
use crate::probe::{open_named, opens_named, settle};
use crate::remote::{resolve, RemotePath};
use crate::request::{directory, directory_mode, HandleTag, OpenReply, OpenRequest};

verus! {

/// Starts the creation of one directory: the open that creates it, and
/// fails if anything exists at the path.
///
/// The share's root cannot be created: a path that names nothing below it
/// is a `BadPath`, as is one with a `..` segment.
pub fn mkdir(root: &ShareRoot, rel: &str) -> (r: Result<OpenRequest, Failure>)
    ensures
        opens_named(r, root.text(), rel@, directory_mode(true)),
{
    open_named(root, rel, directory(true))
}

/// Ends the creation of a directory: success if the open gave a handle,
/// else a `CreateError` with the session's text.
pub fn mkdir_done(reply: OpenReply) -> (r: Result<(), Failure>)
    ensures
        match reply {
            Ok(_) => r is Ok,
            Err(text) => r matches Err(f) && f.is(ErrorKind::CreateError, text@),
        },
{
    match settle::<HandleTag>(reply, ErrorKind::CreateError) {
        Ok(_) => Ok(()),
        Err(f) => Err(f),
    }
}

/// The creation of a directory and of all its missing ancestors, from the
/// outermost inwards.
#[derive(Debug)]
pub struct DirectoryWalk {
    path: RemotePath,
    made: usize,
}

impl DirectoryWalk {
    /// The text of the share's root.
    pub closed spec fn root(&self) -> Seq<char> {
        self.path.root()
    }

    /// The segments of the directory to create, outermost first.
    pub closed spec fn segments(&self) -> Seq<Seq<char>> {
        self.path.segments()
    }

    /// How many of the segments are known to exist as directories.
    pub closed spec fn made(&self) -> nat {
        self.made as nat
    }

    /// Whether every directory on the way exists.
    pub open spec fn finished(&self) -> bool {
        self.made() >= self.segments().len()
    }

    /// The open to perform next: the one that creates the outermost
    /// directory not yet known to exist, or opens it if it exists. `None`
    /// once every directory on the way exists: the walk has succeeded.
    pub fn pending(&self) -> (out: Option<OpenRequest>)
        ensures
            match out {
                Some(req) => {
                    &&& !self.finished()
                    &&& req.path@ == rendered(
                        self.root(),
                        self.segments().take(self.made() as int + 1),
                    )
                    &&& req.mode == directory_mode(false)
                },
                None => self.finished(),
            },
    {
        if self.made >= self.path.depth() {
            None
        } else {
            let count = self.made + 1;
            proof {
                if count as nat >= self.segments().len() {
                    assert(self.segments().take(count as int) =~= self.segments());
                }
            }
            Some(OpenRequest { path: self.path.ancestor(count), mode: directory(false) })
        }
    }

    /// Takes the session's answer to the pending open. A handle lets the
    /// walk go one directory further in; a failure ends it as a
    /// `CreateError` with the session's text.
    pub fn advance(self, reply: OpenReply) -> (r: Result<DirectoryWalk, Failure>)
        ensures
            match reply {
                Ok(_) => r matches Ok(next) && {
                    &&& next.root() == self.root()
                    &&& next.segments() == self.segments()
                    &&& next.made() == if self.finished() {
                        self.made()
                    } else {
                        self.made() + 1
                    }
                },
                Err(text) => r matches Err(f) && f.is(ErrorKind::CreateError, text@),
            },
    {
        match reply {
            Ok(_) => {
                let made = if self.made >= self.path.depth() {
                    self.made
                } else {
                    self.made + 1
                };
                Ok(DirectoryWalk { path: self.path, made })
            },
            Err(text) => Err(Failure::reported(ErrorKind::CreateError, text)),
        }
    }
}

/// Starts the creation of a directory and of all its missing ancestors.
///
/// Nothing is known to exist yet. For the share's root there is nothing to
/// do: the walk is finished at once. A path with a `..` segment is a
/// `BadPath`, and no directory is created for it.
pub fn mkdir_p(root: &ShareRoot, rel: &str) -> (r: Result<DirectoryWalk, Failure>)
    ensures
        match r {
            Ok(walk) => {
                &&& !has_parent_ref(rel@)
                &&& walk.root() == root.text()
                &&& walk.segments() == segments(rel@)
                &&& walk.made() == 0
            },
            Err(f) => has_parent_ref(rel@) && f.is_bare(ErrorKind::BadPath),
        },
{
    match resolve(root, rel) {
        Ok(path) => Ok(DirectoryWalk { path, made: 0 }),
        Err(f) => Err(f),
    }
}

} // verus!
