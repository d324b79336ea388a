use repo_insight::AnalysisError;
use repo_insight::EngineError;
use repo_insight::ResolutionError;
use repo_insight::analyze;
use repo_insight::resolve;
use repo_insight::run_analysis;

fn path_string(dir: &tempfile::TempDir) -> String {
    dir.path().to_str().unwrap().to_string()
}

/// Initializes an empty repository whose default branch is `main`.
fn init_repo(dir: &tempfile::TempDir) -> git2::Repository {
    let mut opts = git2::RepositoryInitOptions::new();
    opts.initial_head("main");
    git2::Repository::init_opts(dir.path(), &opts).unwrap()
}

/// Writes a tree holding `names` as regular files, all with the same content.
fn write_flat_tree(repo: &git2::Repository, names: &[&str]) -> git2::Oid {
    let blob = repo.blob(b"content").unwrap();
    let mut builder = repo.treebuilder(None).unwrap();
    for name in names {
        builder.insert(*name, blob, 0o100644).unwrap();
    }
    builder.write().unwrap()
}

/// Adds one commit on HEAD by the given author, snapshotting `tree_oid`.
fn add_commit(repo: &git2::Repository, author: &str, tree_oid: git2::Oid, msg: &str) -> git2::Oid {
    let sig = git2::Signature::now(author, "dev@example.com").unwrap();
    let tree = repo.find_tree(tree_oid).unwrap();
    let parents = match repo.head() {
        Ok(head) => vec![head.peel_to_commit().unwrap()],
        Err(_) => Vec::new(),
    };
    let parent_refs: Vec<&git2::Commit> = parents.iter().collect();
    repo.commit(Some("HEAD"), &sig, &sig, msg, &tree, &parent_refs).unwrap()
}

#[test]
fn scenario_three_commits_two_branches_five_files() {
    let dir = tempfile::TempDir::new().unwrap();
    let repo = init_repo(&dir);

    // Five tracked files: two at the top level, three in a subdirectory.
    let blob = repo.blob(b"content").unwrap();
    let mut sub = repo.treebuilder(None).unwrap();
    sub.insert("c.txt", blob, 0o100644).unwrap();
    sub.insert("d.txt", blob, 0o100644).unwrap();
    sub.insert("e.txt", blob, 0o100644).unwrap();
    let sub_oid = sub.write().unwrap();
    let mut root = repo.treebuilder(None).unwrap();
    root.insert("a.txt", blob, 0o100644).unwrap();
    root.insert("b.txt", blob, 0o100644).unwrap();
    root.insert("sub", sub_oid, 0o040000).unwrap();
    let tree_oid = root.write().unwrap();

    add_commit(&repo, "alice", tree_oid, "first");
    add_commit(&repo, "bob", tree_oid, "second");
    let last = add_commit(&repo, "alice", tree_oid, "third");

    let head_commit = repo.find_commit(last).unwrap();
    repo.branch("feature", &head_commit, false).unwrap();

    let report = analyze(&path_string(&dir)).unwrap();
    assert_eq!(report.commit_count, 3);
    assert_eq!(report.contributors.len(), 2);
    assert_eq!(report.contributors.get(&"alice".to_string()), Some(2));
    assert_eq!(report.contributors.get(&"bob".to_string()), Some(1));
    assert_eq!(report.file_count, 5);
    assert_eq!(report.branches.len(), 2);
    assert!(report.branches.contains(&"main".to_string()));
    assert!(report.branches.contains(&"feature".to_string()));
    assert_eq!(report.repo_path, path_string(&dir));
}

#[test]
fn symlinks_and_submodules_are_not_counted_as_files() {
    let dir = tempfile::TempDir::new().unwrap();
    let repo = init_repo(&dir);

    let blob = repo.blob(b"content").unwrap();
    let target = repo.blob(b"a.txt").unwrap();
    let gitlink = git2::Oid::from_str("0123456789abcdef0123456789abcdef01234567").unwrap();
    let mut builder = repo.treebuilder(None).unwrap();
    builder.insert("a.txt", blob, 0o100644).unwrap();
    builder.insert("b.sh", blob, 0o100755).unwrap();
    builder.insert("link", target, 0o120000).unwrap();
    builder.insert("vendor", gitlink, 0o160000).unwrap();
    let tree_oid = builder.write().unwrap();
    add_commit(&repo, "alice", tree_oid, "first");

    let report = analyze(&path_string(&dir)).unwrap();
    assert_eq!(report.file_count, 2);
}

#[test]
fn scenario_empty_repository_reports_zeros() {
    let dir = tempfile::TempDir::new().unwrap();
    init_repo(&dir);

    let report = analyze(&path_string(&dir)).unwrap();
    assert_eq!(report.commit_count, 0);
    assert_eq!(report.contributors.len(), 0);
    assert_eq!(report.file_count, 0);
    assert!(report.branches.is_empty());
}

#[test]
fn scenario_empty_author_is_tallied_as_unknown() {
    let dir = tempfile::TempDir::new().unwrap();
    let repo = init_repo(&dir);

    // A commit whose author line carries no name, written straight into the
    // object database: the signature constructor refuses an empty name.
    let tree_oid = write_flat_tree(&repo, &["a.txt"]);
    let raw = format!(
        "tree {}\nauthor <dev@example.com> 1700000000 +0000\ncommitter <dev@example.com> 1700000000 +0000\n\nmsg\n",
        tree_oid
    );
    let commit_oid = {
        let odb = repo.odb().unwrap();
        odb.write(git2::ObjectType::Commit, raw.as_bytes()).unwrap()
    };
    repo.reference("refs/heads/main", commit_oid, true, "test").unwrap();
    repo.set_head("refs/heads/main").unwrap();

    let report = analyze(&path_string(&dir)).unwrap();
    assert_eq!(report.commit_count, 1);
    assert_eq!(report.contributors.len(), 1);
    assert_eq!(report.contributors.get(&"Unknown".to_string()), Some(1));
}

#[test]
fn analyzing_twice_yields_identical_reports() {
    let dir = tempfile::TempDir::new().unwrap();
    let repo = init_repo(&dir);
    let tree_oid = write_flat_tree(&repo, &["a.txt", "b.txt"]);
    add_commit(&repo, "alice", tree_oid, "first");
    add_commit(&repo, "bob", tree_oid, "second");

    let path = path_string(&dir);
    let first = analyze(&path).unwrap();
    let second = analyze(&path).unwrap();
    assert_eq!(first.repo_path, second.repo_path);
    assert_eq!(first.branches, second.branches);
    assert_eq!(first.commit_count, second.commit_count);
    assert_eq!(first.file_count, second.file_count);
    assert_eq!(first.contributors.len(), second.contributors.len());
    for entry in first.contributors.entries() {
        assert_eq!(second.contributors.get(&entry.0), Some(entry.1));
    }
}

#[test]
fn existing_path_resolves_locally_without_cloning() {
    let dir = tempfile::TempDir::new().unwrap();
    init_repo(&dir);

    let path = path_string(&dir);
    let workspace = resolve(path.clone()).unwrap();
    assert!(!workspace.is_temporary());
    assert_eq!(*workspace.local_path(), path);
}

#[test]
fn missing_path_attempts_a_clone() {
    // The path exists nowhere, so the resolver must treat it as a remote
    // locator and attempt a clone, which fails.
    let result = resolve("no/such/path/anywhere".to_string());
    match result {
        Err(ResolutionError::CloneFailed(_)) => {}
        _ => panic!("expected a failed clone attempt"),
    }
}

#[test]
fn scenario_invalid_remote_locator_is_a_resolution_error() {
    let result = run_analysis("http://unreachable.invalid/repo.git".to_string());
    match result {
        Err(EngineError::Resolution(ResolutionError::CloneFailed(_))) => {}
        _ => panic!("expected a resolution error"),
    }
}

#[test]
fn remote_clone_workspace_is_removed_after_use() {
    let src_dir = tempfile::TempDir::new().unwrap();
    let repo = init_repo(&src_dir);
    let tree_oid = write_flat_tree(&repo, &["a.txt"]);
    add_commit(&repo, "alice", tree_oid, "first");

    let url = format!("file://{}", path_string(&src_dir));
    let workspace = resolve(url).unwrap();
    assert!(workspace.is_temporary());
    let clone_path = workspace.local_path().clone();

    // While the workspace lives, the clone is an openable repository.
    assert!(git2::Repository::open(&clone_path).is_ok());
    let report = analyze(&clone_path).unwrap();
    assert_eq!(report.commit_count, 1);

    // Once it goes out of use, the temporary directory is gone.
    drop(workspace);
    assert!(git2::Repository::open(&clone_path).is_err());
}

#[test]
fn run_analysis_cleans_up_and_reports_for_remote_input() {
    let src_dir = tempfile::TempDir::new().unwrap();
    let repo = init_repo(&src_dir);
    let tree_oid = write_flat_tree(&repo, &["a.txt", "b.txt", "c.txt"]);
    add_commit(&repo, "alice", tree_oid, "first");
    add_commit(&repo, "alice", tree_oid, "second");

    let url = format!("file://{}", path_string(&src_dir));
    let report = run_analysis(url).unwrap();
    assert_eq!(report.commit_count, 2);
    assert_eq!(report.contributors.get(&"alice".to_string()), Some(2));
    assert_eq!(report.file_count, 3);

    // The report names the transient clone, whose directory is gone again.
    assert!(git2::Repository::open(&report.repo_path).is_err());
}

#[test]
fn analyzing_a_non_repository_is_an_open_error() {
    let dir = tempfile::TempDir::new().unwrap();
    let result = analyze(&path_string(&dir));
    match result {
        Err(AnalysisError::Open(_)) => {}
        _ => panic!("expected an open error"),
    }
}

#[test]
fn unresolvable_head_target_is_a_history_error() {
    let dir = tempfile::TempDir::new().unwrap();
    let repo = init_repo(&dir);

    // HEAD resolves to an object that is no commit, so the ancestry walk
    // cannot be initialized.
    let blob = repo.blob(b"content").unwrap();
    repo.reference("refs/heads/main", blob, true, "test").unwrap();
    repo.set_head("refs/heads/main").unwrap();

    let result = analyze(&path_string(&dir));
    match result {
        Err(AnalysisError::History(_)) => {}
        _ => panic!("expected a history error"),
    }
}

#[test]
fn missing_tree_object_is_a_tree_error() {
    let dir = tempfile::TempDir::new().unwrap();
    let repo = init_repo(&dir);

    // A commit referring to a tree that is not in the object database.
    let raw = format!(
        "tree {}\nauthor dev <dev@example.com> 1700000000 +0000\ncommitter dev <dev@example.com> 1700000000 +0000\n\nmsg\n",
        "0123456789abcdef0123456789abcdef01234567"
    );
    let commit_oid = {
        let odb = repo.odb().unwrap();
        odb.write(git2::ObjectType::Commit, raw.as_bytes()).unwrap()
    };
    repo.reference("refs/heads/main", commit_oid, true, "test").unwrap();
    repo.set_head("refs/heads/main").unwrap();

    let result = analyze(&path_string(&dir));
    match result {
        Err(AnalysisError::Tree(_)) => {}
        _ => panic!("expected a tree error"),
    }
}
