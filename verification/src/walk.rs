//! The walker: a lazy traversal of the tree under one root path, built
//! on the `walkdir` crate behind trusted wrappers. The walk covers the
//! root itself and, when the root is a directory, every descendant, in
//! the traversal's stable order; a root that is a single file is a
//! one-entry walk. A failure to read one path is reported as one item
//! and the walk goes on with the remaining entries.

use vstd::prelude::*;

use crate::entry::{classify, classify_spec, Entry};

verus! {

#[verifier::external_type_specification]
#[verifier::external_body]
pub struct ExWalkdirIntoIter(walkdir::IntoIter);

#[verifier::external_type_specification]
#[verifier::external_body]
pub struct ExWalkdirDirEntry(walkdir::DirEntry);

#[verifier::external_type_specification]
#[verifier::external_body]
pub struct ExWalkdirError(walkdir::Error);

/// What the traversal reports of one visited entry, as plain values: its
/// full path, its name (the final path component) and the three flags of
/// its own, non-followed file type.
pub struct RawEntry {
    pub path: String,
    pub name: String,
    pub is_symlink: bool,
    pub is_dir: bool,
    pub is_file: bool,
}

/// What the traversal reports of one failure, as plain values: a message
/// naming the offending path and the underlying cause, and the depth
/// below the root at which it occurred.
pub struct RawFailure {
    pub message: String,
    pub depth: usize,
}

/// A top-level root path could not be opened: the walk of that root ends
/// after this one report and a multi-root run proceeds with the next
/// root.
pub struct RootError {
    pub message: String,
}

/// One path inside the tree could not be read or resolved: the walk
/// reports it once and continues with the sibling and remaining entries.
pub struct TraversalError {
    pub message: String,
}

/// One step of a walk: an entry with its kind resolved, or one failure.
pub enum WalkItem {
    Found(Entry),
    RootFailed(RootError),
    StepFailed(TraversalError),
}

/// Relies on `walkdir::WalkDir::new` and `WalkDir::into_iter`: a
/// depth-first iterator over the tree under `root` that yields each
/// directory once and does not follow symbolic links.
#[verifier::external_body]
fn walkdir_iter(root: &str) -> walkdir::IntoIter {
    walkdir::WalkDir::new(root).into_iter()
}

/// Relies on `walkdir::IntoIter::next`: `None` once the walk is done;
/// otherwise one directory entry — its path, name and non-followed file
/// type, per `DirEntry::path`, `file_name` and `file_type` — or one
/// error, whose display names the path and cause and whose depth, per
/// `Error::depth`, is 0 exactly for the root itself. What comes back
/// depends on the filesystem, so nothing more is promised of it.
#[verifier::external_body]
fn walkdir_next(it: &mut walkdir::IntoIter) -> (r: Option<Result<RawEntry, RawFailure>>) {
    match it.next() {
        None => None,
        Some(Ok(e)) => Some(Ok(RawEntry {
            path: e.path().to_string_lossy().into_owned(),
            name: e.file_name().to_string_lossy().into_owned(),
            is_symlink: e.file_type().is_symlink(),
            is_dir: e.file_type().is_dir(),
            is_file: e.file_type().is_file(),
        })),
        Some(Err(e)) => Some(Err(RawFailure { message: e.to_string(), depth: e.depth() })),
    }
}

/// How one raw traversal report resolves into a walk item: an entry gets
/// the kind its own file type classifies to; a failure at depth 0
/// concerns the root itself, any deeper one is a recoverable traversal
/// failure.
pub open spec fn resolve_spec(raw: Result<RawEntry, RawFailure>) -> WalkItem {
    match raw {
        Ok(e) => WalkItem::Found(
            Entry {
                path: e.path,
                name: e.name,
                kind: classify_spec(e.is_symlink, e.is_dir, e.is_file),
            },
        ),
        Err(f) => if f.depth == 0 {
            WalkItem::RootFailed(RootError { message: f.message })
        } else {
            WalkItem::StepFailed(TraversalError { message: f.message })
        },
    }
}

/// Resolve one raw traversal report into a walk item.
pub fn resolve(raw: Result<RawEntry, RawFailure>) -> (item: WalkItem)
    ensures
        item == resolve_spec(raw),
{
    match raw {
        Ok(e) => {
            let kind = classify(e.is_symlink, e.is_dir, e.is_file);
            WalkItem::Found(Entry { path: e.path, name: e.name, kind })
        },
        Err(f) => {
            if f.depth == 0 {
                WalkItem::RootFailed(RootError { message: f.message })
            } else {
                WalkItem::StepFailed(TraversalError { message: f.message })
            }
        },
    }
}

/// A lazy walk of the tree under one root: a consumer that stops asking
/// for steps stops all further filesystem reads.
pub struct Walker {
    iter: walkdir::IntoIter,
}

/// Begin a walk of the tree under `root`.
pub fn walk(root: &str) -> Walker {
    Walker { iter: walkdir_iter(root) }
}

impl Walker {
    /// The next step of the walk, or `None` once the walk is done. What
    /// is found depends on the filesystem; each raw report is resolved
    /// by `resolve`, so every failure surfaces as an item and none stops
    /// the walk.
    pub fn next_item(&mut self) -> Option<WalkItem> {
        match walkdir_next(&mut self.iter) {
            None => None,
            Some(raw) => Some(resolve(raw)),
        }
    }

    /// Walk to the end and collect every step. The number of steps taken
    /// is bounded, so a constructed cycle the traversal would not detect
    /// cannot hang a caller forever.
    pub fn collect_items(&mut self) -> Vec<WalkItem> {
        let mut items: Vec<WalkItem> = Vec::new();
        let mut steps: usize = 0;
        while steps < usize::MAX
            decreases usize::MAX - steps,
        {
            match self.next_item() {
                None => {
                    return items;
                },
                Some(item) => {
                    items.push(item);
                },
            }
            steps = steps + 1;
        }
        items
    }
}

} // verus!
