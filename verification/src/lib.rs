//! Repository analysis engine: resolves a path-or-URL to a local repository
//! workspace, enumerates branches, walks the commit history, counts the files
//! in the HEAD snapshot, and aggregates the results into one report.

mod analysis;
mod backend;
mod branches;
mod history;
mod report;
mod resolve;
mod snapshot;

pub use analysis::AnalysisError;
pub use analysis::EngineError;
pub use analysis::analyze;
pub use analysis::analyze_data;
pub use analysis::run_analysis;
pub use branches::collect_branches;
pub use branches::spec_branch_list;
pub use history::CommitItem;
pub use history::ContributorTally;
pub use history::spec_bump;
pub use history::spec_commit_count;
pub use history::spec_label;
pub use history::spec_tally;
pub use history::unknown_author;
pub use history::walk_history;
pub use report::AnalysisReport;
pub use report::aggregate;
pub use report::lemma_analysis_deterministic;
pub use report::lemma_commit_count_is_contributor_sum;
pub use report::lemma_empty_repository;
pub use report::report_matches;
pub use resolve::RepositorySource;
pub use resolve::ResolutionError;
pub use resolve::Workspace;
pub use resolve::classify_source;
pub use resolve::resolve;
pub use resolve::resolve_from_source;
pub use snapshot::EntryKind;
pub use snapshot::classify_entry;
pub use snapshot::count_files;
pub use snapshot::spec_classify;
pub use snapshot::spec_file_count;
