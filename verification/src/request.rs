use vstd::prelude::*;

verus! {

/// Whether a path names a file or a directory.
#[derive(Clone, Copy, PartialEq, Eq, Structural, Debug)]
pub enum Kind {
    File,
    Dir,
}

/// What kind of handle an open gave.
#[derive(Clone, Copy, PartialEq, Eq, Structural, Debug)]
pub enum HandleTag {
    File,
    Directory,
    Other,
}

/// What an open does according to whether the object exists.
#[derive(Clone, Copy, PartialEq, Eq, Structural, Debug)]
pub enum Disposition {
    /// Open the object; fail if it does not exist.
    Open,
    /// Create the object; fail if it exists.
    Create,
    /// Open the object, or create it if it does not exist.
    OpenIf,
    /// Replace the object's content, or create it if it does not exist.
    OverwriteIf,
}

/// The access that an open asks for.
#[derive(Clone, Copy, PartialEq, Eq, Structural, Debug)]
pub struct Access {
    pub generic_read: bool,
    pub generic_write: bool,
    pub delete: bool,
}

/// The options of an open.
#[derive(Clone, Copy, PartialEq, Eq, Structural, Debug)]
pub struct Options {
    pub directory_file: bool,
    pub non_directory_file: bool,
    pub delete_on_close: bool,
}

/// All of an open but the path.
#[derive(Clone, Copy, PartialEq, Eq, Structural, Debug)]
pub struct OpenMode {
    pub disposition: Disposition,
    pub access: Access,
    pub options: Options,
    /// Whether the object is given the directory attribute.
    pub directory_attribute: bool,
}

/// An open that the session is asked to perform.
#[derive(Clone, Debug)]
pub struct OpenRequest {
    /// The remote path, as text.
    pub path: String,
    pub mode: OpenMode,
}

/// What the session answered to an open: the kind of handle, or the text of
/// its error.
pub type OpenReply = Result<HandleTag, String>;

/// No option set.
pub open spec fn no_options() -> Options {
    Options { directory_file: false, non_directory_file: false, delete_on_close: false }
}

/// Read access alone.
pub open spec fn read_access() -> Access {
    Access { generic_read: true, generic_write: false, delete: false }
}

/// Read and write access.
pub open spec fn read_write_access() -> Access {
    Access { generic_read: true, generic_write: true, delete: false }
}

/// Read and write access, and the right to delete.
pub open spec fn full_access() -> Access {
    Access { generic_read: true, generic_write: true, delete: true }
}

/// The option that tells the session which kind of object is meant.
pub open spec fn options_for(kind: Kind) -> Options {
    match kind {
        Kind::File => Options {
            directory_file: false,
            non_directory_file: true,
            delete_on_close: false,
        },
        Kind::Dir => Options {
            directory_file: true,
            non_directory_file: false,
            delete_on_close: false,
        },
    }
}

/// Opens whatever exists at the path for reading, without saying whether a
/// file or a directory is meant.
pub open spec fn look_mode() -> OpenMode {
    OpenMode {
        disposition: Disposition::Open,
        access: read_access(),
        options: no_options(),
        directory_attribute: false,
    }
}

/// Opens an existing object of the given kind for reading.
pub open spec fn inspect_mode(kind: Kind) -> OpenMode {
    OpenMode {
        disposition: Disposition::Open,
        access: read_access(),
        options: options_for(kind),
        directory_attribute: false,
    }
}

/// Opens a file for reading and writing, emptied if it exists and created
/// if it does not.
pub open spec fn overwrite_mode() -> OpenMode {
    OpenMode {
        disposition: Disposition::OverwriteIf,
        access: read_write_access(),
        options: no_options(),
        directory_attribute: false,
    }
}

/// Creates a directory: one that must not exist yet where `fresh` holds,
/// else one that may exist already.
pub open spec fn directory_mode(fresh: bool) -> OpenMode {
    OpenMode {
        disposition: if fresh {
            Disposition::Create
        } else {
            Disposition::OpenIf
        },
        access: read_write_access(),
        options: options_for(Kind::Dir),
        directory_attribute: true,
    }
}

/// Opens an existing object of the given kind so that it is deleted when
/// the handle is released.
pub open spec fn delete_mode(kind: Kind) -> OpenMode {
    OpenMode {
        disposition: Disposition::Open,
        access: full_access(),
        options: Options {
            directory_file: kind == Kind::Dir,
            non_directory_file: kind == Kind::File,
            delete_on_close: true,
        },
        directory_attribute: false,
    }
}

/// Opens an existing object of the given kind so that it can be renamed.
pub open spec fn rename_mode(kind: Kind) -> OpenMode {
    OpenMode {
        disposition: Disposition::Open,
        access: full_access(),
        options: options_for(kind),
        directory_attribute: false,
    }
}

/// The options that tell the session which kind of object is meant.
pub fn kind_options(kind: Kind) -> (options: Options)
    ensures
        options == options_for(kind),
{
    match kind {
        Kind::File => Options {
            directory_file: false,
            non_directory_file: true,
            delete_on_close: false,
        },
        Kind::Dir => Options {
            directory_file: true,
            non_directory_file: false,
            delete_on_close: false,
        },
    }
}

/// The mode of an open that looks at whatever exists at a path.
pub fn look() -> (mode: OpenMode)
    ensures
        mode == look_mode(),
{
    OpenMode {
        disposition: Disposition::Open,
        access: Access { generic_read: true, generic_write: false, delete: false },
        options: Options { directory_file: false, non_directory_file: false, delete_on_close: false },
        directory_attribute: false,
    }
}

/// The mode of an open that reads the metadata of an object of a known kind.
pub fn inspect(kind: Kind) -> (mode: OpenMode)
    ensures
        mode == inspect_mode(kind),
{
    OpenMode {
        disposition: Disposition::Open,
        access: Access { generic_read: true, generic_write: false, delete: false },
        options: kind_options(kind),
        directory_attribute: false,
    }
}

/// The mode of an open that replaces a file's content.
pub fn overwrite() -> (mode: OpenMode)
    ensures
        mode == overwrite_mode(),
{
    OpenMode {
        disposition: Disposition::OverwriteIf,
        access: Access { generic_read: true, generic_write: true, delete: false },
        options: Options { directory_file: false, non_directory_file: false, delete_on_close: false },
        directory_attribute: false,
    }
}

/// The mode of an open that creates a directory.
pub fn directory(fresh: bool) -> (mode: OpenMode)
    ensures
        mode == directory_mode(fresh),
{
    let disposition = if fresh {
        Disposition::Create
    } else {
        Disposition::OpenIf
    };
    OpenMode {
        disposition,
        access: Access { generic_read: true, generic_write: true, delete: false },
        options: kind_options(Kind::Dir),
        directory_attribute: true,
    }
}

/// The mode of an open that deletes an object of a known kind.
pub fn delete(kind: Kind) -> (mode: OpenMode)
    ensures
        mode == delete_mode(kind),
{
    let plain = kind_options(kind);
    OpenMode {
        disposition: Disposition::Open,
        access: Access { generic_read: true, generic_write: true, delete: true },
        options: Options {
            directory_file: plain.directory_file,
            non_directory_file: plain.non_directory_file,
            delete_on_close: true,
        },
        directory_attribute: false,
    }
}

/// The mode of an open that prepares a rename of an object of a given kind.
pub fn renaming(kind: Kind) -> (mode: OpenMode)
    ensures
        mode == rename_mode(kind),
{
    OpenMode {
        disposition: Disposition::Open,
        access: Access { generic_read: true, generic_write: true, delete: true },
        options: kind_options(kind),
        directory_attribute: false,
    }
}

} // verus!
