//! Entries produced by a walk and the resolution of their kind.

use vstd::prelude::*;

verus! {

/// Classification of a filesystem entry, resolved without following
/// symbolic links: a symbolic link classifies as `Other` even when its
/// target is a directory or a regular file.
#[derive(Clone, Copy, Debug, PartialEq, Eq, Structural)]
pub enum EntryKind {
    Directory,
    File,
    Other,
}

/// One filesystem object visited during a walk: its full path, its name
/// (the final path component) and its kind, resolved at visit time.
pub struct Entry {
    pub path: String,
    pub name: String,
    pub kind: EntryKind,
}

/// The kind an entry resolves to, from the three flags of its own
/// (non-followed) file type: a symbolic link is `Other`, then a directory
/// is `Directory`, a regular file is `File`, and anything else is `Other`.
pub open spec fn classify_spec(is_symlink: bool, is_dir: bool, is_file: bool) -> EntryKind {
    if is_symlink {
        EntryKind::Other
    } else if is_dir {
        EntryKind::Directory
    } else if is_file {
        EntryKind::File
    } else {
        EntryKind::Other
    }
}

/// Resolve the kind of an entry from its own file-type flags.
pub fn classify(is_symlink: bool, is_dir: bool, is_file: bool) -> (k: EntryKind)
    ensures
        k == classify_spec(is_symlink, is_dir, is_file),
{
    if is_symlink {
        EntryKind::Other
    } else if is_dir {
        EntryKind::Directory
    } else if is_file {
        EntryKind::File
    } else {
        EntryKind::Other
    }
}

/// A symbolic link never classifies as `Directory` or `File`, whatever
/// its target resolves to.
pub proof fn lemma_symlink_classifies_as_other(is_dir: bool, is_file: bool)
    ensures
        classify_spec(true, is_dir, is_file) == EntryKind::Other,
{
}

} // verus!
