use gitforge::diff::diff_branches;
use gitforge::errors::GitError;
use gitforge::lifecycle::{create_repository, delete_repository, repo_path};
use gitforge::merge::merge_branches;
use gitforge::reader::{
    build_listing, classify_path_lookup, commit_history, list_branches, list_tree,
    short_branch_name,
};
use gitforge::store::{EntryKind, PathLookup};

fn sig() -> git2::Signature<'static> {
    git2::Signature::now("Tester", "tester@example.com").unwrap()
}

/// Writes a commit whose tree holds exactly `files`, advancing `refname`.
fn commit_files(
    repo: &git2::Repository,
    refname: &str,
    files: &[(&str, &str)],
    message: &str,
    parents: &[git2::Oid],
) -> git2::Oid {
    let mut tb = repo.treebuilder(None).unwrap();
    for (name, content) in files {
        let blob = repo.blob(content.as_bytes()).unwrap();
        tb.insert(*name, blob, 0o100644).unwrap();
    }
    let tree_oid = tb.write().unwrap();
    let tree = repo.find_tree(tree_oid).unwrap();
    let parent_commits: Vec<git2::Commit> =
        parents.iter().map(|o| repo.find_commit(*o).unwrap()).collect();
    let parent_refs: Vec<&git2::Commit> = parent_commits.iter().collect();
    let s = sig();
    repo.commit(Some(refname), &s, &s, message, &tree, &parent_refs)
        .unwrap()
}

/// A fresh project root holding one repository created by the library.
fn fresh_repo(name: &str) -> (tempfile::TempDir, String, git2::Repository) {
    let dir = tempfile::tempdir().unwrap();
    let root = dir.path().to_str().unwrap().to_string();
    create_repository(&root, name).unwrap();
    let repo = git2::Repository::open(repo_path(&root, name)).unwrap();
    (dir, root, repo)
}

fn dir_entries(path: &std::path::Path) -> Vec<String> {
    let mut names: Vec<String> = walkdir::WalkDir::new(path)
        .min_depth(1)
        .into_iter()
        .map(|e| e.unwrap().path().to_string_lossy().into_owned())
        .collect();
    names.sort();
    names
}

#[test]
fn create_then_delete_restores_the_project_root() {
    let dir = tempfile::tempdir().unwrap();
    let root = dir.path().to_str().unwrap().to_string();
    let before = dir_entries(dir.path());

    create_repository(&root, "demo").unwrap();
    assert!(git2::Repository::open(repo_path(&root, "demo")).is_ok());

    let target = delete_repository(&root, "demo").unwrap();
    remove_dir_all::remove_dir_all(&target).unwrap();

    let after = dir_entries(dir.path());
    assert_eq!(before, after);
}

#[test]
fn create_makes_a_bare_repository_with_push_enabled() {
    let (_dir, _root, repo) = fresh_repo("demo");
    assert!(repo.is_bare());
    let enabled = repo
        .config()
        .unwrap()
        .get_bool("http.receivepack")
        .unwrap();
    assert!(enabled);
}

#[test]
fn create_rejects_bad_names_with_no_side_effect() {
    let dir = tempfile::tempdir().unwrap();
    let root = dir.path().to_str().unwrap().to_string();
    let before = dir_entries(dir.path());
    for bad in ["", "a/b", "..", "a..b", "/"] {
        assert_eq!(create_repository(&root, bad), Err(GitError::InvalidName));
    }
    assert_eq!(before, dir_entries(dir.path()));
}

#[test]
fn create_twice_reports_already_exists() {
    let (_dir, root, _repo) = fresh_repo("demo");
    assert_eq!(create_repository(&root, "demo"), Err(GitError::AlreadyExists));
}

#[test]
fn delete_of_missing_repository_is_not_found() {
    let dir = tempfile::tempdir().unwrap();
    let root = dir.path().to_str().unwrap().to_string();
    assert_eq!(delete_repository(&root, "ghost"), Err(GitError::NotFound));
    assert_eq!(delete_repository(&root, "../escape"), Err(GitError::NotFound));
}

#[test]
fn branches_of_missing_repository_are_not_found() {
    let dir = tempfile::tempdir().unwrap();
    let root = dir.path().to_str().unwrap().to_string();
    assert_eq!(
        list_branches(&root, "ghost").unwrap_err(),
        GitError::RepositoryNotFound
    );
}

#[test]
fn local_and_remote_branches_are_listed_by_short_name() {
    let (_dir, root, repo) = fresh_repo("demo");
    let c1 = commit_files(&repo, "refs/heads/main", &[("a.txt", "alpha\n")], "first", &[]);
    commit_files(&repo, "refs/heads/feature", &[("a.txt", "alpha\n")], "branch", &[c1]);
    repo.reference("refs/remotes/origin/remote-only", c1, true, "test").unwrap();

    let mut names: Vec<String> = list_branches(&root, "demo")
        .unwrap()
        .into_iter()
        .map(|b| b.name)
        .collect();
    names.sort();
    assert_eq!(names, vec!["feature", "main", "origin/remote-only"]);
}

#[test]
fn tree_listing_distinguishes_files_directories_and_missing_paths() {
    let (_dir, root, repo) = fresh_repo("demo");
    let readme = repo.blob(b"hello\n").unwrap();
    let nested = repo.blob(b"nested\n").unwrap();
    let mut inner = repo.treebuilder(None).unwrap();
    inner.insert("nested.txt", nested, 0o100644).unwrap();
    let inner_oid = inner.write().unwrap();
    let mut outer = repo.treebuilder(None).unwrap();
    outer.insert("README.md", readme, 0o100644).unwrap();
    outer.insert("src", inner_oid, 0o040000).unwrap();
    let tree_oid = outer.write().unwrap();
    let tree = repo.find_tree(tree_oid).unwrap();
    let s = sig();
    repo.commit(Some("refs/heads/main"), &s, &s, "layout", &tree, &[])
        .unwrap();

    let rootlist = list_tree(&root, "demo", "main", None).unwrap();
    let root_pairs: Vec<(String, String)> =
        rootlist.into_iter().map(|e| (e.name, e.entry_type)).collect();
    assert_eq!(
        root_pairs,
        vec![
            ("README.md".to_string(), "blob".to_string()),
            ("src".to_string(), "tree".to_string()),
        ]
    );

    let sub = list_tree(&root, "demo", "main", Some("/src/")).unwrap();
    let sub_pairs: Vec<(String, String)> =
        sub.into_iter().map(|e| (e.name, e.entry_type)).collect();
    assert_eq!(sub_pairs, vec![("nested.txt".to_string(), "blob".to_string())]);

    // A path naming a file is not the same failure as a missing path.
    assert_eq!(
        list_tree(&root, "demo", "main", Some("src/nested.txt")).unwrap_err(),
        GitError::NotADirectory
    );
    assert_eq!(
        list_tree(&root, "demo", "main", Some("no/such/path")).unwrap_err(),
        GitError::PathNotFound
    );
    assert_eq!(
        list_tree(&root, "demo", "missing", None).unwrap_err(),
        GitError::BranchNotFound
    );
}

#[test]
fn history_of_linear_branch_is_newest_first_and_complete() {
    let (_dir, root, repo) = fresh_repo("demo");
    let c1 = commit_files(&repo, "refs/heads/main", &[("a.txt", "one\n")], "first", &[]);
    let c2 = commit_files(&repo, "refs/heads/main", &[("a.txt", "two\n")], "second", &[c1]);
    let c3 = commit_files(&repo, "refs/heads/main", &[("a.txt", "three\n")], "third", &[c2]);

    let history = commit_history(&root, "demo", "main").unwrap();
    let ids: Vec<String> = history.iter().map(|c| c.id.clone()).collect();
    assert_eq!(ids, vec![c3.to_string(), c2.to_string(), c1.to_string()]);
    let messages: Vec<String> = history.iter().map(|c| c.message.clone()).collect();
    assert_eq!(messages, vec!["third", "second", "first"]);
    for entry in &history {
        assert_eq!(entry.author, "Tester");
        let commit = repo.find_commit(git2::Oid::from_str(&entry.id).unwrap()).unwrap();
        let expected = chrono::DateTime::from_timestamp(commit.time().seconds(), 0)
            .unwrap()
            .to_rfc2822();
        assert_eq!(entry.date, expected);
    }
}

#[test]
fn history_of_single_root_commit_has_one_entry_with_zero_parents() {
    let (_dir, root, repo) = fresh_repo("demo");
    let c1 = commit_files(&repo, "refs/heads/main", &[("a.txt", "one\n")], "root", &[]);

    let history = commit_history(&root, "demo", "main").unwrap();
    assert_eq!(history.len(), 1);
    assert_eq!(history[0].id, c1.to_string());
    assert_eq!(repo.find_commit(c1).unwrap().parent_count(), 0);
}

#[test]
fn history_falls_back_to_the_remote_tracking_branch() {
    let (_dir, root, repo) = fresh_repo("demo");
    let c1 = commit_files(&repo, "refs/heads/main", &[("a.txt", "one\n")], "first", &[]);
    repo.reference("refs/remotes/origin/incoming", c1, true, "test")
        .unwrap();

    let history = commit_history(&root, "demo", "incoming").unwrap();
    assert_eq!(history.len(), 1);
    assert_eq!(history[0].id, c1.to_string());

    assert_eq!(
        commit_history(&root, "demo", "nowhere").unwrap_err(),
        GitError::BranchNotFound
    );
}

#[test]
fn merging_disjoint_changes_advances_base_to_a_two_parent_commit() {
    let (_dir, root, repo) = fresh_repo("demo");
    let base = commit_files(&repo, "refs/heads/main", &[("a.txt", "alpha\n")], "root", &[]);
    let main_tip = commit_files(
        &repo,
        "refs/heads/main",
        &[("a.txt", "alpha\n"), ("m.txt", "mike\n")],
        "main work",
        &[base],
    );
    let feat_tip = commit_files(
        &repo,
        "refs/heads/feat",
        &[("a.txt", "alpha\n"), ("f.txt", "foxtrot\n")],
        "feat work",
        &[base],
    );

    let merged_hex = merge_branches(&root, "demo", "main", "feat", "Alice", "alice@example.com")
        .unwrap();
    let merged_oid = git2::Oid::from_str(&merged_hex).unwrap();

    // The base reference now targets the merge commit.
    let main_ref = repo.find_reference("refs/heads/main").unwrap();
    assert_eq!(main_ref.target().unwrap(), merged_oid);

    // Two parents: the old base tip, then the head tip.
    let merged = repo.find_commit(merged_oid).unwrap();
    assert_eq!(merged.parent_count(), 2);
    assert_eq!(merged.parent_id(0).unwrap(), main_tip);
    assert_eq!(merged.parent_id(1).unwrap(), feat_tip);
    assert_eq!(merged.author().name(), Some("Alice"));

    // The merged tree is the union of both branches' changes.
    let tree = merged.tree().unwrap();
    let mut names: Vec<String> = tree
        .iter()
        .map(|e| e.name().unwrap().to_string())
        .collect();
    names.sort();
    assert_eq!(names, vec!["a.txt", "f.txt", "m.txt"]);
}

#[test]
fn conflicting_merge_is_rejected_without_moving_the_base() {
    let (_dir, root, repo) = fresh_repo("demo");
    let base = commit_files(&repo, "refs/heads/main", &[("c.txt", "line\n")], "root", &[]);
    let main_tip = commit_files(
        &repo,
        "refs/heads/main",
        &[("c.txt", "main change\n")],
        "main edit",
        &[base],
    );
    commit_files(
        &repo,
        "refs/heads/feat",
        &[("c.txt", "feat change\n")],
        "feat edit",
        &[base],
    );

    let result = merge_branches(&root, "demo", "main", "feat", "Alice", "alice@example.com");
    assert_eq!(result.unwrap_err(), GitError::MergeConflict);

    let main_ref = repo.find_reference("refs/heads/main").unwrap();
    assert_eq!(main_ref.target().unwrap(), main_tip);
}

#[test]
fn merge_of_missing_branch_is_reported() {
    let (_dir, root, repo) = fresh_repo("demo");
    commit_files(&repo, "refs/heads/main", &[("a.txt", "alpha\n")], "root", &[]);
    assert_eq!(
        merge_branches(&root, "demo", "main", "ghost", "Alice", "alice@example.com").unwrap_err(),
        GitError::BranchNotFound
    );
}

#[test]
fn diffing_a_branch_against_itself_is_empty() {
    let (_dir, root, repo) = fresh_repo("demo");
    commit_files(&repo, "refs/heads/main", &[("a.txt", "alpha\n")], "root", &[]);
    assert_eq!(diff_branches(&root, "demo", "main", "main").unwrap(), "");
}

#[test]
fn diff_between_branches_renders_added_and_removed_lines() {
    let (_dir, root, repo) = fresh_repo("demo");
    let base = commit_files(&repo, "refs/heads/main", &[("a.txt", "before\n")], "root", &[]);
    commit_files(&repo, "refs/heads/feat", &[("a.txt", "after\n")], "edit", &[base]);

    let patch = diff_branches(&root, "demo", "main", "feat").unwrap();
    assert!(patch.contains("diff --git"));
    assert!(patch.contains("-before"));
    assert!(patch.contains("+after"));
    assert_eq!(
        diff_branches(&root, "demo", "main", "ghost").unwrap_err(),
        GitError::BranchNotFound
    );
}

#[test]
fn empty_and_slash_paths_list_the_root_tree() {
    let (_dir, root, repo) = fresh_repo("demo");
    commit_files(&repo, "refs/heads/main", &[("a.txt", "alpha\n")], "root", &[]);

    for path in [None, Some(""), Some("/")] {
        let entries = list_tree(&root, "demo", "main", path).unwrap();
        assert_eq!(entries.len(), 1);
        assert_eq!(entries[0].name, "a.txt");
        assert_eq!(entries[0].entry_type, "blob");
    }
}

#[test]
fn short_branch_names_strip_reference_prefixes() {
    assert_eq!(short_branch_name("refs/heads/main"), Some("main".to_string()));
    assert_eq!(
        short_branch_name("refs/remotes/origin/dev"),
        Some("origin/dev".to_string())
    );
    assert_eq!(short_branch_name("refs/tags/v1"), None);
    assert_eq!(short_branch_name("HEAD"), None);
    assert_eq!(short_branch_name("refs/heads/"), Some("".to_string()));
}

#[test]
fn listings_keep_named_entries_in_order() {
    let raw = vec![
        (Some("a.txt".to_string()), EntryKind::Blob),
        (None, EntryKind::Blob),
        (Some("src".to_string()), EntryKind::Tree),
        (Some("odd".to_string()), EntryKind::Other),
    ];
    let listing = build_listing(&raw);
    let pairs: Vec<(String, String)> =
        listing.into_iter().map(|e| (e.name, e.entry_type)).collect();
    assert_eq!(
        pairs,
        vec![
            ("a.txt".to_string(), "blob".to_string()),
            ("src".to_string(), "tree".to_string()),
            ("odd".to_string(), "unknown".to_string()),
        ]
    );
}

#[test]
fn path_lookup_outcomes_classify_to_distinct_errors() {
    let oid = git2::Oid::from_str("0123456789012345678901234567890123456789").unwrap();
    assert_eq!(classify_path_lookup(PathLookup::TreeAt(oid)), Ok(oid));
    assert_eq!(
        classify_path_lookup(PathLookup::Missing),
        Err(GitError::PathNotFound)
    );
    assert_eq!(
        classify_path_lookup(PathLookup::NonTree),
        Err(GitError::NotADirectory)
    );
}
