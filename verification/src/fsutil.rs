//! No-follow path kinds and the reparse-point attribute test.

use vstd::prelude::*;

verus! {

/// Raw Win32 attribute bit of any reparse point (symlink, junction, mount
/// point): such an entry is removed as itself and never traversed.
pub const FILE_ATTRIBUTE_REPARSE_POINT: u32 = 0x0000_0400;

/// Kind of a path as seen without following links.
#[derive(Debug, Clone, Copy, PartialEq, Eq, Structural)]
pub enum PathKind {
    /// Confirmed absent.
    Missing,
    /// Regular file.
    File,
    /// Real directory without a reparse attribute.
    Directory,
    /// Any reparse point: removable as an entry, never traversed.
    Reparse,
}

/// Whether raw attributes mark a reparse point.
pub fn attrs_are_reparse(file_attributes: u32) -> (r: bool)
    ensures
        r == (file_attributes & FILE_ATTRIBUTE_REPARSE_POINT != 0),
{
    file_attributes & FILE_ATTRIBUTE_REPARSE_POINT != 0
}

/// Kind of an existing entry from its raw attributes and directory flag: a
/// reparse attribute wins over the directory flag.
pub fn kind_from_metadata(file_attributes: u32, is_dir: bool) -> (r: PathKind)
    ensures
        r == (if file_attributes & FILE_ATTRIBUTE_REPARSE_POINT != 0 {
            PathKind::Reparse
        } else if is_dir {
            PathKind::Directory
        } else {
            PathKind::File
        }),
{
    if attrs_are_reparse(file_attributes) {
        PathKind::Reparse
    } else if is_dir {
        PathKind::Directory
    } else {
        PathKind::File
    }
}

} // verus!
