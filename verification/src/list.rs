use vstd::prelude::*;
use crate::address::ShareRoot;
use crate::attributes::{classify, kind_of_attributes, le_value, u32_from_le};
use crate::failure::{ErrorKind, Failure};
use crate::path::{is_current_ref, is_parent_ref};
use crate::probe::{expect_handle, expects, open_at, opens};
use crate::request::{look, look_mode, HandleTag, Kind, OpenReply, OpenRequest};
use crate::text::chars_of;

verus! {

/// The pattern that every entry of a directory matches.
pub const EVERY_ENTRY: &'static str = "*";

/// An entry of a directory as the session reports it.
#[derive(Clone, Debug)]
pub struct DirEntry {
    pub name: String,
    /// The entry's attribute flags, least significant byte first.
    pub file_attributes: [u8; 4],
}

/// An entry of a directory as the listing shows it.
#[derive(Clone, Debug)]
pub struct Listed {
    pub name: String,
    pub kind: Kind,
}

/// Whether a name is one of the two that every directory holds, `.` and
/// `..`.
pub open spec fn is_self_or_parent(name: Seq<char>) -> bool {
    is_current_ref(name) || is_parent_ref(name)
}

/// What a listing shows of a reported entry: its name and kind, unless the
/// entry could not be decoded or is `.` or `..`.
pub open spec fn shown_as(entry: Option<DirEntry>) -> Option<(Seq<char>, Kind)> {
    match entry {
        Some(e) => if is_self_or_parent(e.name@) {
            None
        } else {
            Some((e.name@, kind_of_attributes(le_value(e.file_attributes@) as u32)))
        },
        None => None,
    }
}

/// What a listing shows of the reported entries: those that are shown at
/// all, in the order in which they were reported.
pub open spec fn listing(raw: Seq<Option<DirEntry>>) -> Seq<(Seq<char>, Kind)>
    decreases raw.len(),
{
    if raw.len() == 0 {
        Seq::<(Seq<char>, Kind)>::empty()
    } else {
        match shown_as(raw.last()) {
            Some(line) => listing(raw.drop_last()).push(line),
            None => listing(raw.drop_last()),
        }
    }
}

/// The names and kinds that a listing holds.
pub open spec fn lines(out: Seq<Listed>) -> Seq<(Seq<char>, Kind)> {
    Seq::new(out.len(), |i: int| (out[i].name@, out[i].kind))
}

/// Whether a name is `.` or `..`.
pub fn names_self_or_parent(name: &str) -> (yes: bool)
    ensures
        yes == is_self_or_parent(name@),
{
    let chars = chars_of(name);
    let n = chars.len();
    (n == 1 && chars[0] == '.') || (n == 2 && chars[0] == '.' && chars[1] == '.')
}

/// Starts a listing: the open of the path for reading.
pub fn list_dir(root: &ShareRoot, rel: &str) -> (r: Result<OpenRequest, Failure>)
    ensures
        opens(r, root.text(), rel@, look_mode()),
{
    open_at(root, rel, look())
}

/// Goes on after the open: on `Ok`, the handle is a directory, and the
/// entries that match `EVERY_ENTRY` are to be enumerated.
pub fn list_dir_opened(reply: OpenReply) -> (r: Result<(), Failure>)
    ensures
        expects(reply, HandleTag::Directory, r),
{
    expect_handle(reply, HandleTag::Directory)
}

/// Ends a listing with what the enumeration gave: one item for each entry
/// that the session reported, `None` for an entry that could not be
/// decoded.
///
/// Such entries are left out without a word, and so are `.` and `..`. The
/// others keep their order, each with the kind that its attributes tell
/// of. A failed enumeration is a `QueryError` with the session's text.
pub fn list_dir_done(reply: Result<Vec<Option<DirEntry>>, String>) -> (r: Result<
    Vec<Listed>,
    Failure,
>)
    ensures
        match reply {
            Ok(raw) => r matches Ok(out) && {
                &&& lines(out@) == listing(raw@)
                &&& forall|i: int| 0 <= i < out.len() ==> !is_self_or_parent(#[trigger] out[i].name@)
            },
            Err(text) => r matches Err(f) && f.is(ErrorKind::QueryError, text@),
        },
{
    let raw = match reply {
        Ok(raw) => raw,
        Err(text) => {
            return Err(Failure::reported(ErrorKind::QueryError, text));
        },
    };
    let mut out: Vec<Listed> = Vec::new();
    let mut i: usize = 0;
    assert(raw@.take(0) =~= Seq::<Option<DirEntry>>::empty());
    assert(lines(out@) =~= listing(raw@.take(0)));
    while i < raw.len()
        invariant
            i <= raw.len(),
            lines(out@) == listing(raw@.take(i as int)),
            forall|k: int| 0 <= k < out.len() ==> !is_self_or_parent(#[trigger] out[k].name@),
        decreases raw.len() - i,
    {
        proof {
            assert(raw@.take(i + 1).drop_last() =~= raw@.take(i as int));
            assert(raw@.take(i + 1).last() == raw@[i as int]);
        }
        match &raw[i] {
            Some(entry) => {
                if !names_self_or_parent(entry.name.as_str()) {
                    let ghost before = out@;
                    let kind = classify(u32_from_le(&entry.file_attributes));
                    out.push(Listed { name: entry.name.clone(), kind });
                    assert(lines(out@) =~= lines(before).push((entry.name@, kind)));
                }
            },
            None => {},
        }
        i += 1;
    }
    assert(raw@.take(raw.len() as int) =~= raw@);
    Ok(out)
}

} // verus!
