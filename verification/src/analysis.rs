//! The analysis engine: opens the resolved repository, resolves HEAD once,
//! runs the three traversals through the backend, and folds their raw results
//! into the report with the verified aggregation functions.

use vstd::prelude::*;

use crate::backend::collect_branch_names;
use crate::backend::collect_history;
use crate::backend::collect_tree_filemodes;
use crate::backend::head_commit_id;
use crate::backend::open_repo;
use crate::branches::collect_branches;
use crate::history::CommitItem;
use crate::history::walk_history;
use crate::report::AnalysisReport;
use crate::report::aggregate;
use crate::report::report_matches;
use crate::resolve::ResolutionError;
use crate::resolve::resolve;
use crate::snapshot::count_files;

verus! {

/// Which stage of the analysis failed. A failing stage aborts the whole
/// analysis; no partial report is produced.
#[derive(Debug)]
pub enum AnalysisError {
    /// The repository could not be opened.
    Open(git2::Error),
    /// The branch iterator could not be constructed.
    Branch(git2::Error),
    /// The history traversal could not be initialized.
    History(git2::Error),
    /// The snapshot tree could not be loaded.
    Tree(git2::Error),
}

/// Why a full run failed: either no workspace could be obtained, or one of
/// the analysis stages failed on the opened repository.
#[derive(Debug)]
pub enum EngineError {
    Resolution(ResolutionError),
    Analysis(AnalysisError),
}

/// Folds the raw results of the three traversals into the report: the branch
/// list, the commit count, the per-author tally and the file count are each
/// exactly the verified fold of the corresponding traversal data.
pub fn analyze_data(
    path: &String,
    raw_branches: &Vec<Option<String>>,
    items: &Vec<CommitItem>,
    modes: &Vec<i32>,
) -> (r: AnalysisReport)
    ensures
        report_matches(r, path@, raw_branches@, items@, modes@),
        r.wf(),
{
    let branches = collect_branches(raw_branches);
    let (commit_count, contributors) = walk_history(items);
    let file_count = count_files(modes);
    aggregate(path, branches, commit_count, contributors, file_count)
}

/// Analyzes the repository at a local path: enumerates its branches, walks
/// the ancestry of HEAD and counts the files of the HEAD snapshot. HEAD is
/// resolved once and its commit id handed to both traversals; a repository
/// whose HEAD resolves to no commit yields zero commits, no contributors and
/// zero files. Every reported field is the verified fold of the traversal
/// data the backend returned for this run.
pub fn analyze(path: &String) -> (r: Result<AnalysisReport, AnalysisError>)
    ensures
        r matches Ok(rep) ==> rep.wf() && rep.repo_path@ == path@ && (exists|
            raw_branches: Seq<Option<String>>,
            items: Seq<CommitItem>,
            modes: Seq<i32>,
        | report_matches(rep, path@, raw_branches, items, modes)),
{
    let repo = match open_repo(path) {
        Ok(r) => r,
        Err(e) => return Err(AnalysisError::Open(e)),
    };
    let raw_branches = match collect_branch_names(&repo) {
        Ok(b) => b,
        Err(e) => return Err(AnalysisError::Branch(e)),
    };
    let (items, modes) = match head_commit_id(&repo) {
        Option::Some(head) => {
            let items = match collect_history(&repo, head) {
                Ok(i) => i,
                Err(e) => return Err(AnalysisError::History(e)),
            };
            let modes = match collect_tree_filemodes(&repo, head) {
                Ok(m) => m,
                Err(e) => return Err(AnalysisError::Tree(e)),
            };
            (items, modes)
        },
        Option::None => (Vec::new(), Vec::new()),
    };
    let rep = analyze_data(path, &raw_branches, &items, &modes);
    proof {
        assert(report_matches(rep, path@, raw_branches@, items@, modes@));
    }
    Ok(rep)
}

/// One full run: resolves the input to a workspace, analyzes it, and lets the
/// workspace go out of use on every exit path — a temporary clone directory
/// is removed whether the analysis succeeded or failed.
pub fn run_analysis(input: String) -> (r: Result<AnalysisReport, EngineError>)
    ensures
        r matches Ok(rep) ==> rep.wf() && (exists|
            raw_branches: Seq<Option<String>>,
            items: Seq<CommitItem>,
            modes: Seq<i32>,
        | report_matches(rep, rep.repo_path@, raw_branches, items, modes)),
{
    let workspace = match resolve(input) {
        Ok(w) => w,
        Err(e) => return Err(EngineError::Resolution(e)),
    };
    let result = analyze(workspace.local_path());
    match result {
        Ok(rep) => {
            proof {
                let (rb, it, md) = choose|
                    rb: Seq<Option<String>>,
                    it: Seq<CommitItem>,
                    md: Seq<i32>,
                | report_matches(rep, workspace.spec_path(), rb, it, md);
                assert(report_matches(rep, rep.repo_path@, rb, it, md));
            }
            Ok(rep)
        },
        Err(e) => Err(EngineError::Analysis(e)),
    }
}

} // verus!
