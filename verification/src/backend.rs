//! The trusted boundary to the git backend and the filesystem. Every item
//! here either declares an outside type or wraps one outside call and hands
//! the verified engine plain values. What each result means for the analysis
//! is stated and proved in the verified modules, which take these results as
//! arguments; nothing here promises more than the outside call's own
//! documentation.

use vstd::prelude::*;

use crate::history::CommitItem;

verus! {

#[verifier::external_type_specification]
#[verifier::external_body]
pub struct ExRepository(git2::Repository);

#[verifier::external_type_specification]
#[verifier::external_body]
pub struct ExGitError(git2::Error);

#[verifier::external_type_specification]
#[verifier::external_body]
pub struct ExOid(git2::Oid);

#[verifier::external_type_specification]
#[verifier::external_body]
pub struct ExTempDir(tempfile::TempDir);

#[verifier::external_type_specification]
#[verifier::external_body]
pub struct ExIoError(std::io::Error);

/// Relies on std::path::Path::exists: whether the string names an entry that
/// exists on the local filesystem.
#[verifier::external_body]
pub(crate) fn path_exists(path: &String) -> bool {
    std::path::Path::new(path.as_str()).exists()
}

/// Relies on tempfile::TempDir::new: creates a fresh, uniquely-named
/// temporary directory, which is removed together with its contents when the
/// returned value is dropped.
#[verifier::external_body]
pub(crate) fn new_temp_dir() -> Result<tempfile::TempDir, std::io::Error> {
    tempfile::TempDir::new()
}

/// Relies on tempfile::TempDir::path: the path of the temporary directory.
#[verifier::external_body]
pub(crate) fn temp_dir_path(dir: &tempfile::TempDir) -> String {
    dir.path().to_string_lossy().to_string()
}

/// Relies on git2::Repository::clone: clones the repository at `url` into the
/// directory `into`; fails on an unreachable, invalid or non-repository
/// locator and leaves nothing usable behind.
#[verifier::external_body]
pub(crate) fn clone_repo(url: &String, into: &String) -> Result<(), git2::Error> {
    match git2::Repository::clone(url.as_str(), into.as_str()) {
        Ok(_) => Ok(()),
        Err(e) => Err(e),
    }
}

/// Relies on git2::Repository::open: opens the repository at the path; fails
/// where the path holds no openable repository.
#[verifier::external_body]
pub(crate) fn open_repo(path: &String) -> Result<git2::Repository, git2::Error> {
    git2::Repository::open(path.as_str())
}

/// Relies on git2::Repository::head and git2::Reference::target: the id of
/// the commit HEAD points at, or None where HEAD is unborn or does not
/// resolve to a commit id.
#[verifier::external_body]
pub(crate) fn head_commit_id(repo: &git2::Repository) -> Option<git2::Oid> {
    match repo.head() {
        Ok(head) => head.target(),
        Err(_) => Option::None,
    }
}

/// Relies on git2::Repository::branches with no filter and git2::Branch::name:
/// one entry per branch reference, local and remote-tracking branches both,
/// Some(name) where the reference's name resolves to a display string and
/// None where it does not; fails only where the branch iterator cannot be
/// constructed.
#[verifier::external_body]
pub(crate) fn collect_branch_names(
    repo: &git2::Repository,
) -> Result<Vec<Option<String>>, git2::Error> {
    let mut out: Vec<Option<String>> = Vec::new();
    for item in repo.branches(Option::None)? {
        out.push(match item.map(|(branch, _)| branch.name().map(|n| n.map(str::to_string))) {
            Ok(Ok(Option::Some(name))) => Option::Some(name),
            _ => Option::None,
        });
    }
    Ok(out)
}

/// Relies on git2::Repository::revwalk, git2::Revwalk::push,
/// git2::Repository::find_commit and git2::Signature::name: one item per
/// commit id reachable from `head`, each visited once — the commit's author
/// name where the commit loads and the name is readable text, and Unreadable
/// where the commit cannot be loaded; fails only where the walk cannot be
/// initialized.
#[verifier::external_body]
pub(crate) fn collect_history(
    repo: &git2::Repository,
    head: git2::Oid,
) -> Result<Vec<CommitItem>, git2::Error> {
    let mut walk = repo.revwalk()?;
    walk.push(head)?;
    let mut items: Vec<CommitItem> = Vec::new();
    for id in walk {
        items.push(match id.and_then(|oid| repo.find_commit(oid)) {
            Ok(c) => CommitItem::Authored(c.author().name().ok().map(|n| n.to_string())),
            Err(_) => CommitItem::Unreadable,
        });
    }
    Ok(items)
}

/// Relies on git2::Repository::find_commit, git2::Commit::tree and
/// git2::Tree::walk in pre-order: the filemode of every entry a full
/// recursive walk of the commit's tree visits, entries of subdirectories as
/// well; fails only where the tree cannot be loaded.
#[verifier::external_body]
pub(crate) fn collect_tree_filemodes(
    repo: &git2::Repository,
    head: git2::Oid,
) -> Result<Vec<i32>, git2::Error> {
    let commit = repo.find_commit(head)?;
    let tree = commit.tree()?;
    let mut modes: Vec<i32> = Vec::new();
    tree.walk(git2::TreeWalkMode::PreOrder, |_, entry| {
        modes.push(entry.filemode());
        0i32
    })?;
    Ok(modes)
}

} // verus!
