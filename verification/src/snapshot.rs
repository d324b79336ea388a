//! Snapshot tree walker, pure part: classifying tree entries by their git
//! filemode and counting the regular files among them. The backend hands the
//! walker the flat pre-order list of entry filemodes of the HEAD snapshot;
//! everything from there on is verified.

use vstd::prelude::*;

verus! {

/// What a single tree entry is, as git's filemode records it.
#[derive(Clone, Copy, Debug, PartialEq, Eq, Structural)]
pub enum EntryKind {
    /// A regular file (blob), executable or not.
    File,
    /// A subdirectory (tree).
    Directory,
    /// A symbolic link.
    Symlink,
    /// A submodule (gitlink) entry.
    Submodule,
    /// Any filemode git itself would not write into a tree.
    Other,
}

/// The classification of a git tree-entry filemode: git writes trees with the
/// canonical modes 100644/100755 (and historically 100664) for regular files,
/// 040000 for subdirectories, 120000 for symbolic links and 160000 for
/// submodule entries.
pub open spec fn spec_classify(mode: i32) -> EntryKind {
    if mode == 0o100644 || mode == 0o100755 || mode == 0o100664 {
        EntryKind::File
    } else if mode == 0o040000 {
        EntryKind::Directory
    } else if mode == 0o120000 {
        EntryKind::Symlink
    } else if mode == 0o160000 {
        EntryKind::Submodule
    } else {
        EntryKind::Other
    }
}

/// Classifies one tree entry by its filemode.
pub fn classify_entry(mode: i32) -> (kind: EntryKind)
    ensures
        kind == spec_classify(mode),
{
    if mode == 0o100644 || mode == 0o100755 || mode == 0o100664 {
        EntryKind::File
    } else if mode == 0o040000 {
        EntryKind::Directory
    } else if mode == 0o120000 {
        EntryKind::Symlink
    } else if mode == 0o160000 {
        EntryKind::Submodule
    } else {
        EntryKind::Other
    }
}

/// How many of the given tree entries are regular files. Directory entries,
/// symbolic links and submodule entries are not files.
pub open spec fn spec_file_count(modes: Seq<i32>) -> nat
    decreases modes.len(),
{
    if modes.len() == 0 {
        0
    } else {
        spec_file_count(modes.drop_last()) + (if spec_classify(modes.last()) == (
        EntryKind::File
        ) {
            1nat
        } else {
            0nat
        })
    }
}

/// Counts the regular files among the tree entries of one snapshot, given the
/// filemodes of all entries visited by a full recursive walk.
pub fn count_files(modes: &Vec<i32>) -> (n: usize)
    ensures
        n == spec_file_count(modes@),
{
    let mut n: usize = 0;
    let mut i: usize = 0;
    while i < modes.len()
        invariant
            i <= modes@.len(),
            n <= i,
            n == spec_file_count(modes@.subrange(0, i as int)),
        decreases modes@.len() - i,
    {
        let kind = classify_entry(modes[i]);
        if kind == EntryKind::File {
            n = n + 1;
        }
        proof {
            let pre = modes@.subrange(0, i as int);
            let post = modes@.subrange(0, i as int + 1);
            assert(post.drop_last() =~= pre);
            assert(post.last() == modes@[i as int]);
        }
        i = i + 1;
    }
    proof {
        assert(modes@.subrange(0, modes@.len() as int) =~= modes@);
    }
    n
}

} // verus!
