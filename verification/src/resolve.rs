//! Repository source resolver and transient workspace manager: decides once
//! whether the input names an existing local path or a remote locator, and
//! for a remote one owns the temporary clone directory, which is removed when
//! the workspace goes out of use — on every exit path.

use vstd::prelude::*;

use crate::backend::clone_repo;
use crate::backend::new_temp_dir;
use crate::backend::path_exists;
use crate::backend::temp_dir_path;

verus! {

/// Where an input string points. Decided once, never re-inspected.
pub enum RepositorySource {
    /// An existing path on the local filesystem.
    Local(String),
    /// A remote repository locator, to be cloned.
    Remote(String),
}

/// Why no usable repository workspace could be obtained.
#[derive(Debug)]
pub enum ResolutionError {
    /// The temporary directory for a clone could not be created.
    WorkspaceCreation(std::io::Error),
    /// The clone of the remote repository failed: an unreachable, invalid or
    /// non-repository locator.
    CloneFailed(git2::Error),
}

/// The resolved, openable repository location. A temporary workspace owns its
/// clone directory; dropping the workspace removes that directory and all its
/// contents. A non-temporary workspace owns nothing and never deletes
/// anything.
pub struct Workspace {
    local_path: String,
    is_temporary: bool,
    temp_dir: Option<tempfile::TempDir>,
}

impl Workspace {
    /// The filesystem path of the openable repository.
    pub closed spec fn spec_path(&self) -> Seq<char> {
        self.local_path@
    }

    /// Whether the workspace owns a temporary clone directory.
    pub closed spec fn spec_is_temporary(&self) -> bool {
        self.is_temporary
    }

    /// A temporary workspace holds the handle of its clone directory; a
    /// non-temporary one holds no such handle.
    pub closed spec fn wf(&self) -> bool {
        self.is_temporary <==> self.temp_dir matches Option::Some(_)
    }

    /// The filesystem path of the openable repository.
    pub fn local_path(&self) -> (p: &String)
        ensures
            p@ == self.spec_path(),
    {
        &self.local_path
    }

    /// Whether the workspace owns a temporary clone directory.
    pub fn is_temporary(&self) -> (b: bool)
        ensures
            b == self.spec_is_temporary(),
    {
        self.is_temporary
    }
}

/// Tags the input by whether it names an existing local path: an existing
/// path is a local source, anything else a remote locator.
pub fn classify_source(input: String, exists_locally: bool) -> (source: RepositorySource)
    ensures
        exists_locally ==> source == RepositorySource::Local(input),
        !exists_locally ==> source == RepositorySource::Remote(input),
{
    if exists_locally {
        RepositorySource::Local(input)
    } else {
        RepositorySource::Remote(input)
    }
}

/// Materializes a workspace for a classified source. A local source yields a
/// non-temporary workspace pointing at the path directly — never an error,
/// no clone, no copy. A remote source allocates a fresh temporary directory
/// and clones into it; on either failure the error says which step failed,
/// and a partially created directory is removed before returning.
pub fn resolve_from_source(source: RepositorySource) -> (r: Result<Workspace, ResolutionError>)
    ensures
        r matches Ok(w) ==> w.wf(),
        source matches RepositorySource::Local(path) ==> (r matches Ok(w) && w.spec_path()
            == path@ && !w.spec_is_temporary()),
        source matches RepositorySource::Remote(_) ==> (r matches Ok(w)
            ==> w.spec_is_temporary()),
{
    match source {
        RepositorySource::Local(path) => Ok(
            Workspace { local_path: path, is_temporary: false, temp_dir: Option::None },
        ),
        RepositorySource::Remote(url) => {
            let dir = match new_temp_dir() {
                Ok(d) => d,
                Err(e) => return Err(ResolutionError::WorkspaceCreation(e)),
            };
            let local_path = temp_dir_path(&dir);
            match clone_repo(&url, &local_path) {
                Ok(_) => Ok(
                    Workspace { local_path, is_temporary: true, temp_dir: Option::Some(dir) },
                ),
                Err(e) => Err(ResolutionError::CloneFailed(e)),
            }
        },
    }
}

/// Resolves a path-or-URL string to a workspace: an existing local path is
/// used in place, with no network access and no copy; anything else is
/// treated as a remote locator and cloned into a fresh temporary directory.
pub fn resolve(input: String) -> (r: Result<Workspace, ResolutionError>)
    ensures
        r matches Ok(w) ==> w.wf(),
        r matches Ok(w) ==> (!w.spec_is_temporary() ==> w.spec_path() == input@),
{
    let exists_locally = path_exists(&input);
    let source = classify_source(input, exists_locally);
    resolve_from_source(source)
}

} // verus!
