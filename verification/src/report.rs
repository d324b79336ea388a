//! The analysis aggregator and its report: one immutable value combining the
//! results of the three traversals, with the report invariant that the commit
//! count equals the sum of the per-author counts.

use vstd::prelude::*;

use crate::branches::spec_branch_list;
use crate::history::CommitItem;
use crate::history::ContributorTally;
use crate::history::spec_commit_count;
use crate::history::spec_tally;
use crate::snapshot::spec_file_count;

verus! {

/// The terminal, immutable aggregate of one analysis.
pub struct AnalysisReport {
    /// The filesystem path of the analyzed repository.
    pub repo_path: String,
    /// All branch names, in enumeration order.
    pub branches: Vec<String>,
    /// How many commits are reachable from HEAD.
    pub commit_count: usize,
    /// Per-author commit counts.
    pub contributors: ContributorTally,
    /// How many regular files the HEAD snapshot holds.
    pub file_count: usize,
}

impl AnalysisReport {
    /// The report invariant: a well-formed tally whose counts sum to the
    /// commit count.
    pub open spec fn wf(&self) -> bool {
        &&& self.contributors.wf()
        &&& self.commit_count == self.contributors.spec_total()
    }
}

/// What a report must say of one run's traversal data: the branch list, the
/// commit count, the per-author tally and the file count are each exactly the
/// fold of the corresponding raw traversal.
pub open spec fn report_matches(
    r: AnalysisReport,
    path: Seq<char>,
    raw_branches: Seq<Option<String>>,
    items: Seq<CommitItem>,
    modes: Seq<i32>,
) -> bool {
    &&& r.repo_path@ == path
    &&& r.branches.deep_view() == spec_branch_list(raw_branches)
    &&& r.commit_count == spec_commit_count(items)
    &&& r.contributors@ == spec_tally(items)
    &&& r.file_count == spec_file_count(modes)
}

/// Combines the four independent results into one report. Pure combination:
/// every field of the report is exactly the argument handed in.
pub fn aggregate(
    path: &String,
    branches: Vec<String>,
    commit_count: usize,
    contributors: ContributorTally,
    file_count: usize,
) -> (r: AnalysisReport)
    requires
        contributors.wf(),
        commit_count == contributors.spec_total(),
    ensures
        r.wf(),
        r.repo_path@ == path@,
        r.branches == branches,
        r.commit_count == commit_count,
        r.contributors == contributors,
        r.file_count == file_count,
{
    AnalysisReport { repo_path: path.clone(), branches, commit_count, contributors, file_count }
}

/// Analysis is deterministic in the traversal data: two reports drawn from
/// the same raw traversals agree on every field of the aggregate, so
/// analyzing the same immutable repository twice yields identical reports.
pub proof fn lemma_analysis_deterministic(
    r1: AnalysisReport,
    r2: AnalysisReport,
    path: Seq<char>,
    raw_branches: Seq<Option<String>>,
    items: Seq<CommitItem>,
    modes: Seq<i32>,
)
    requires
        report_matches(r1, path, raw_branches, items, modes),
        report_matches(r2, path, raw_branches, items, modes),
    ensures
        r1.repo_path@ == r2.repo_path@,
        r1.branches.deep_view() == r2.branches.deep_view(),
        r1.commit_count == r2.commit_count,
        r1.contributors@ == r2.contributors@,
        r1.file_count == r2.file_count,
{
}

/// A repository with no commits reports zero commits, no contributors and
/// zero files, whatever its (possibly non-empty) branch list says.
pub proof fn lemma_empty_repository(
    r: AnalysisReport,
    path: Seq<char>,
    raw_branches: Seq<Option<String>>,
)
    requires
        report_matches(r, path, raw_branches, Seq::empty(), Seq::empty()),
    ensures
        r.commit_count == 0,
        r.contributors@ == Map::<Seq<char>, nat>::empty(),
        r.file_count == 0,
{
}

/// The commit count of a well-formed report equals the sum of its per-author
/// counts.
pub proof fn lemma_commit_count_is_contributor_sum(r: AnalysisReport)
    requires
        r.wf(),
    ensures
        r.commit_count == r.contributors.spec_total(),
{
}

} // verus!
