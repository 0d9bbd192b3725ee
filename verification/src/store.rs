//! Trusted bindings to the `git2` object store.
//!
//! Everything the core asks of libgit2 goes through one of these thin
//! wrappers.  Their results depend on what is on disk, so the contracts
//! state only what holds of every outcome; the verified callers take each
//! result as it comes and do the rest.  Commits and tree entries are
//! handed around by object id, never as open libgit2 handles.

use vstd::prelude::*;

verus! {

#[verifier::external_type_specification]
#[verifier::external_body]
pub struct ExRepository(git2::Repository);

#[verifier::external_type_specification]
#[verifier::external_body]
pub struct ExGitError(git2::Error);

#[verifier::external_type_specification]
#[verifier::external_body]
pub struct ExOid(git2::Oid);

#[verifier::external_type_specification]
#[verifier::external_body]
pub struct ExReferences<'a>(git2::References<'a>);

#[verifier::external_type_specification]
#[verifier::external_body]
pub struct ExTree<'a>(git2::Tree<'a>);

#[verifier::external_type_specification]
#[verifier::external_body]
pub struct ExReference<'a>(git2::Reference<'a>);

#[verifier::external_type_specification]
#[verifier::external_body]
pub struct ExRevwalk<'a>(git2::Revwalk<'a>);

#[verifier::external_type_specification]
#[verifier::external_body]
pub struct ExIndex(git2::Index);

#[verifier::external_type_specification]
#[verifier::external_body]
pub struct ExSignature<'a>(git2::Signature<'a>);

#[verifier::external_type_specification]
#[verifier::external_body]
pub struct ExDiff<'a>(git2::Diff<'a>);

/// What a tree entry points at, as far as the repository browser cares.
pub enum EntryKind {
    Blob,
    Tree,
    Other,
}

/// What looking up a path below a tree found.
pub enum PathLookup {
    /// Nothing exists at the path.
    Missing,
    /// The path names a sub-tree with this id.
    TreeAt(git2::Oid),
    /// The path exists but is not a tree.
    NonTree,
}

/// Relies on std::path::Path::exists: whether `path` names an existing
/// filesystem entry.
#[verifier::external_body]
pub(crate) fn path_exists(path: &str) -> bool {
    std::path::Path::new(path).exists()
}

/// Relies on git2::Repository::open: opens the existing repository at
/// `path`; fails when the directory is absent or not a repository.
#[verifier::external_body]
pub(crate) fn repo_open(path: &str) -> Result<git2::Repository, git2::Error> {
    git2::Repository::open(path)
}

/// Relies on git2::Repository::init_bare: creates a bare repository at
/// `path`, creating the directory itself.
#[verifier::external_body]
pub(crate) fn repo_init_bare(path: &str) -> Result<git2::Repository, git2::Error> {
    git2::Repository::init_bare(path)
}

/// Relies on git2::Repository::config and git2::Config::set_bool: sets a
/// boolean configuration key of this repository.
#[verifier::external_body]
pub(crate) fn repo_config_set_bool(
    repo: &git2::Repository,
    key: &str,
    value: bool,
) -> Result<(), git2::Error> {
    match repo.config() {
        Ok(mut c) => c.set_bool(key, value),
        Err(e) => Err(e),
    }
}

/// Relies on git2::Repository::references: an iterator over all
/// references of the repository.
#[verifier::external_body]
pub(crate) fn repo_references<'r>(
    repo: &'r git2::Repository,
) -> Result<git2::References<'r>, git2::Error> {
    repo.references()
}

/// Relies on the Iterator impl of git2::References and
/// git2::Reference::name: yields each reference's full name once (`None`
/// inside when the name is not valid UTF-8), then an outer `None`.
#[verifier::external_body]
pub(crate) fn references_next(
    it: &mut git2::References<'_>,
) -> Option<Result<Option<String>, git2::Error>> {
    match it.next() {
        Some(Ok(r)) => match r.name() {
            Some(n) => Some(Ok(Some(n.to_string()))),
            None => Some(Ok(None)),
        },
        Some(Err(e)) => Some(Err(e)),
        None => None,
    }
}

/// Relies on git2::Repository::find_reference: the reference of that full
/// name, such as `refs/heads/main`.
#[verifier::external_body]
pub(crate) fn find_reference<'r>(
    repo: &'r git2::Repository,
    name: &str,
) -> Result<git2::Reference<'r>, git2::Error> {
    repo.find_reference(name)
}

/// Relies on git2::Reference::peel_to_commit and git2::Commit::id: the id
/// of the commit the reference resolves to.
#[verifier::external_body]
pub(crate) fn reference_tip_oid(r: &git2::Reference<'_>) -> Result<git2::Oid, git2::Error> {
    match r.peel_to_commit() {
        Ok(c) => Ok(c.id()),
        Err(e) => Err(e),
    }
}

/// Relies on git2::Repository::find_commit and git2::Commit::tree_id: the
/// id of the root tree of that commit.
#[verifier::external_body]
pub(crate) fn commit_tree_oid(
    repo: &git2::Repository,
    oid: &git2::Oid,
) -> Result<git2::Oid, git2::Error> {
    match repo.find_commit(*oid) {
        Ok(c) => Ok(c.tree_id()),
        Err(e) => Err(e),
    }
}

/// Relies on git2::Repository::find_commit, git2::Commit::message,
/// git2::Commit::author, git2::Signature::name, git2::Commit::time and
/// git2::Time::seconds: the message and author name as recorded (`None`
/// where not valid UTF-8), and the commit time in POSIX seconds.
#[verifier::external_body]
pub(crate) fn commit_info(
    repo: &git2::Repository,
    oid: &git2::Oid,
) -> Result<(Option<String>, Option<String>, i64), git2::Error> {
    match repo.find_commit(*oid) {
        Ok(c) => {
            let message = c.message().map(|m| m.to_string());
            let author = c.author().name().map(|n| n.to_string());
            Ok((message, author, c.time().seconds()))
        },
        Err(e) => Err(e),
    }
}

/// Relies on the hex form of git2::Oid: forty lower-case hex digits.
#[verifier::external_body]
pub(crate) fn oid_hex(id: &git2::Oid) -> (r: String)
    ensures
        r@.len() == 40,
{
    id.to_string()
}

/// Relies on git2::Repository::find_tree: the tree object of that id.
#[verifier::external_body]
pub(crate) fn find_tree<'r>(
    repo: &'r git2::Repository,
    oid: &git2::Oid,
) -> Result<git2::Tree<'r>, git2::Error> {
    repo.find_tree(*oid)
}

/// Relies on git2::Tree::len: how many entries the tree has.
#[verifier::external_body]
pub(crate) fn tree_len(t: &git2::Tree<'_>) -> usize {
    t.len()
}

/// Relies on git2::Tree::get, git2::TreeEntry::name and
/// git2::TreeEntry::kind: the name (`None` when not valid UTF-8) and kind
/// of the entry at that position, if any.
#[verifier::external_body]
pub(crate) fn tree_entry_at(t: &git2::Tree<'_>, i: usize) -> Option<(Option<String>, EntryKind)> {
    match t.get(i) {
        Some(e) => {
            let kind = match e.kind() {
                Some(git2::ObjectType::Blob) => EntryKind::Blob,
                Some(git2::ObjectType::Tree) => EntryKind::Tree,
                _ => EntryKind::Other,
            };
            Some((e.name().map(|n| n.to_string()), kind))
        },
        None => None,
    }
}

/// Relies on git2::Tree::get_path, git2::TreeEntry::kind and
/// git2::TreeEntry::id: what a `/`-separated path below the tree names.
/// The path bytes come from slicing a valid UTF-8 string.
#[verifier::external_body]
pub(crate) fn tree_lookup(t: &git2::Tree<'_>, path: &[u8]) -> PathLookup {
    let p = std::str::from_utf8(path).unwrap_or("");
    match t.get_path(std::path::Path::new(p)) {
        Ok(e) => match e.kind() {
            Some(git2::ObjectType::Tree) => PathLookup::TreeAt(e.id()),
            _ => PathLookup::NonTree,
        },
        Err(_) => PathLookup::Missing,
    }
}

/// Relies on git2::Repository::revwalk: a fresh revision walker.
#[verifier::external_body]
pub(crate) fn revwalk_new<'r>(repo: &'r git2::Repository) -> Result<git2::Revwalk<'r>, git2::Error> {
    repo.revwalk()
}

/// Relies on git2::Revwalk::push: marks the commit as a starting point of
/// the walk.
#[verifier::external_body]
pub(crate) fn revwalk_push(w: &mut git2::Revwalk<'_>, oid: &git2::Oid) -> Result<(), git2::Error> {
    w.push(*oid)
}

/// Relies on the Iterator impl of git2::Revwalk: yields the ids of the
/// commits reachable from the pushed starting points, then `None`.
/// git2 documents the walker's default ordering as implementation-
/// specific; the history is reported in whatever order the walk yields.
#[verifier::external_body]
pub(crate) fn revwalk_next(w: &mut git2::Revwalk<'_>) -> Option<Result<git2::Oid, git2::Error>> {
    w.next()
}

/// Relies on git2::Repository::find_commit and
/// git2::Repository::merge_commits with default options: the in-memory
/// index of the three-way merge of the two commits against their best
/// common ancestor.  Nothing is written to the repository.
#[verifier::external_body]
pub(crate) fn merge_commits_index(
    repo: &git2::Repository,
    base: &git2::Oid,
    head: &git2::Oid,
) -> Result<git2::Index, git2::Error> {
    let b = repo.find_commit(*base)?;
    let h = repo.find_commit(*head)?;
    repo.merge_commits(&b, &h, None)
}

/// Relies on git2::Index::has_conflicts: whether the merge left
/// conflicting entries in the index.
#[verifier::external_body]
pub(crate) fn index_has_conflicts(idx: &git2::Index) -> bool {
    idx.has_conflicts()
}

/// Relies on git2::Index::write_tree_to: writes the index as a tree into
/// the repository and returns the tree's id.
#[verifier::external_body]
pub(crate) fn index_write_tree_to(
    idx: &mut git2::Index,
    repo: &git2::Repository,
) -> Result<git2::Oid, git2::Error> {
    idx.write_tree_to(repo)
}

/// Relies on git2::Signature::now: a signature of this name and email at
/// the current time.
#[verifier::external_body]
pub(crate) fn signature_now(
    name: &str,
    email: &str,
) -> Result<git2::Signature<'static>, git2::Error> {
    git2::Signature::now(name, email)
}

/// Relies on git2::Repository::find_tree, git2::Repository::find_commit
/// and git2::Repository::commit with no update ref: writes a commit with
/// the two parents in order and the supplied identity as author and
/// committer, moving no reference, and returns the new commit's id.
#[verifier::external_body]
pub(crate) fn create_merge_commit(
    repo: &git2::Repository,
    sig: &git2::Signature<'_>,
    message: &str,
    tree_oid: &git2::Oid,
    parent_base: &git2::Oid,
    parent_head: &git2::Oid,
) -> Result<git2::Oid, git2::Error> {
    let tree = repo.find_tree(*tree_oid)?;
    let b = repo.find_commit(*parent_base)?;
    let h = repo.find_commit(*parent_head)?;
    repo.commit(None, sig, sig, message, &tree, &[&b, &h])
}

/// Relies on git2::Repository::reference_matching: sets the reference to
/// `new` if it still targets `expected`, and fails with code `Modified`
/// when it has moved to another target; a reference deleted in between
/// is created afresh rather than refused.
#[verifier::external_body]
pub(crate) fn reference_compare_and_set(
    repo: &git2::Repository,
    name: &str,
    new: &git2::Oid,
    expected: &git2::Oid,
    log_message: &str,
) -> Result<(), git2::Error> {
    match repo.reference_matching(name, *new, true, *expected, log_message) {
        Ok(_) => Ok(()),
        Err(e) => Err(e),
    }
}

/// Relies on git2::Error::code: whether the failure says the reference
/// did not match the expected value.
#[verifier::external_body]
pub(crate) fn error_is_modified(e: &git2::Error) -> bool {
    e.code() == git2::ErrorCode::Modified
}

/// Relies on git2::Repository::diff_tree_to_tree with default options: the
/// tree-to-tree diff of the two trees, with no rename detection.
#[verifier::external_body]
pub(crate) fn diff_trees<'r>(
    repo: &'r git2::Repository,
    base: &git2::Oid,
    head: &git2::Oid,
) -> Result<git2::Diff<'r>, git2::Error> {
    let b = repo.find_tree(*base)?;
    let h = repo.find_tree(*head)?;
    let mut opts = git2::DiffOptions::new();
    repo.diff_tree_to_tree(Some(&b), Some(&h), Some(&mut opts))
}

/// Relies on git2::Diff::print in patch format: the callback sees every
/// line of the rendered patch in order, with its origin marker; line
/// content that is not valid UTF-8 is replaced by the empty string.
#[verifier::external_body]
pub(crate) fn diff_lines(diff: &git2::Diff<'_>) -> Result<Vec<(char, String)>, git2::Error> {
    let mut out: Vec<(char, String)> = Vec::new();
    let r = diff.print(git2::DiffFormat::Patch, |_delta, _hunk, line| {
        let text = std::str::from_utf8(line.content()).unwrap_or("").to_string();
        out.push((line.origin(), text));
        true
    });
    match r {
        Ok(()) => Ok(out),
        Err(e) => Err(e),
    }
}

} // verus!
