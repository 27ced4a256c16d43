use vstd::prelude::*;
use crate::request::Kind;

verus! {

/// The attribute bit that marks a directory.
pub const FILE_ATTRIBUTE_DIRECTORY: u32 = 0x10;

/// The number that four bytes denote, least significant byte first.
pub open spec fn le_value(bytes: Seq<u8>) -> nat
    recommends
        bytes.len() == 4,
{
    (bytes[0] as nat) + 256 * (bytes[1] as nat) + 65_536 * (bytes[2] as nat) + 16_777_216 * (
    bytes[3] as nat)
}

/// The kind of object that attribute flags tell of: a directory where the
/// directory bit is set, else a file.
pub open spec fn kind_of_attributes(attributes: u32) -> Kind {
    if attributes & 0x10 != 0 {
        Kind::Dir
    } else {
        Kind::File
    }
}

/// The attribute flags that four bytes hold, least significant byte first.
pub fn u32_from_le(bytes: &[u8; 4]) -> (value: u32)
    ensures
        value as nat == le_value(bytes@),
{
    let b0: u32 = bytes[0] as u32;
    let b1: u32 = bytes[1] as u32;
    let b2: u32 = bytes[2] as u32;
    let b3: u32 = bytes[3] as u32;
    b0 + 256 * b1 + 65_536 * b2 + 16_777_216 * b3
}

/// The kind of object that attribute flags tell of.
pub fn classify(attributes: u32) -> (kind: Kind)
    ensures
        kind == kind_of_attributes(attributes),
{
    if attributes & FILE_ATTRIBUTE_DIRECTORY != 0 {
        Kind::Dir
    } else {
        Kind::File
    }
}

} // verus!
