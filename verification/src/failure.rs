use vstd::prelude::*;

verus! {

/// The ways in which an operation on a share can fail.
#[derive(Clone, Copy, PartialEq, Eq, Structural, Debug)]
pub enum ErrorKind {
    /// The share address is not of the form `\\host\share`.
    BadAddress,
    /// The relative path holds a `..` segment, or names nothing where a
    /// name is needed.
    BadPath,
    /// The session to the share could not be set up.
    ConnectError,
    /// The session refused to open the object.
    OpenError,
    /// The object was opened, and is not a file.
    NotAFile,
    /// The object was opened, and is not a directory.
    NotADirectory,
    /// Reading an open file failed.
    ReadError,
    /// Writing an open file failed.
    WriteError,
    /// A metadata query or a directory enumeration failed.
    QueryError,
    /// A directory could not be created; it may exist already.
    CreateError,
    /// The object could not be opened for deletion.
    DeleteError,
    /// The directory to delete still has entries.
    DirectoryNotEmpty,
    /// The object to rename could be opened neither as a file nor as a
    /// directory.
    RenameOpenError,
    /// The session refused the new name.
    RenameError,
    /// No buffer could be had for the bytes that were read.
    AllocError,
    /// An earlier operation left the connection unusable.
    LockUnavailable,
}

impl ErrorKind {
    /// Whether the kind is one of the failures to open an object as what
    /// the operation needs.
    pub open spec fn is_open_failure(self) -> bool {
        self == ErrorKind::OpenError || self == ErrorKind::NotAFile || self
            == ErrorKind::NotADirectory
    }
}

/// A failed operation: its kind, and what the session said of it, if the
/// failure came from the session.
#[derive(Clone, Debug)]
pub struct Failure {
    pub kind: ErrorKind,
    pub detail: String,
}

impl Failure {
    /// Whether the failure is of the given kind with the given detail.
    pub open spec fn is(&self, kind: ErrorKind, detail: Seq<char>) -> bool {
        self.kind == kind && self.detail@ == detail
    }

    /// Whether the failure is of the given kind and carries no detail.
    pub open spec fn is_bare(&self, kind: ErrorKind) -> bool {
        self.is(kind, Seq::<char>::empty())
    }

    /// A failure that the adapter found by itself.
    pub fn bare(kind: ErrorKind) -> (f: Failure)
        ensures
            f.is_bare(kind),
    {
        Failure { kind, detail: String::new() }
    }

    /// A failure that the session reported with the given text.
    pub fn reported(kind: ErrorKind, detail: String) -> (f: Failure)
        ensures
            f.is(kind, detail@),
    {
        Failure { kind, detail }
    }
}

} // verus!
