//! Three-way merging of one branch into another, all-or-nothing.
//!
//! A conflict aborts before anything is written.  On success a two-parent
//! merge commit is written and the base reference is advanced by a
//! compare-and-set against the tip that the merge was computed from, so a
//! concurrent writer makes the merge fail retryably instead of being
//! silently clobbered.

use vstd::prelude::*;
use vstd::string::StringExecFns;

use crate::errors::GitError;
use crate::lifecycle::repo_path;
use crate::reader::local_ref;
use crate::store;

verus! {

/// The message of a merge commit of `head` into `base`.
pub open spec fn merge_message_spec(base: Seq<char>, head: Seq<char>) -> Seq<char> {
    "Merge pull request from "@ + head + " into "@ + base
}

/// Builds the merge commit message.
pub fn merge_message(base: &str, head: &str) -> (r: String)
    ensures
        r@ == merge_message_spec(base@, head@),
{
    let mut s = String::new();
    s.append("Merge pull request from ");
    s.append(head);
    s.append(" into ");
    s.append(base);
    proof {
        assert(s@ =~= merge_message_spec(base@, head@));
    }
    s
}

/// Merges `head` into `base` in `<root>/<repo_name>.git` and returns the
/// hex id of the new merge commit.
///
/// The two tips are resolved, three-way merged against their best common
/// ancestor, and on a clean merge the tree and a two-parent commit
/// (base tip first, head tip second) are written with the supplied
/// identity; the base reference then advances only if it still targets
/// the observed tip.  `MergeConflict` means nothing was written;
/// `RefMoved` means the base moved meanwhile and retrying is safe;
/// `RefUpdateFailed` means the commit exists but the reference was not
/// advanced.
pub fn merge_branches(
    root: &str,
    repo_name: &str,
    base: &str,
    head: &str,
    author_name: &str,
    author_email: &str,
) -> (r: Result<String, GitError>)
    ensures
        r matches Ok(id) ==> id@.len() == 40,
        r matches Err(e) ==> (e is RepositoryNotFound || e is BranchNotFound || e is MergeConflict
            || e is RefMoved || e is RefUpdateFailed || e is Internal),
{
    let repo_dir = repo_path(root, repo_name);
    let repo = match store::repo_open(repo_dir.as_str()) {
        Ok(r) => r,
        Err(_) => {
            return Err(GitError::RepositoryNotFound);
        },
    };
    let base_ref_name = local_ref(base);
    let head_ref_name = local_ref(head);
    let base_tip = match store::find_reference(&repo, base_ref_name.as_str()) {
        Ok(r) => match store::reference_tip_oid(&r) {
            Ok(oid) => oid,
            Err(_) => {
                return Err(GitError::BranchNotFound);
            },
        },
        Err(_) => {
            return Err(GitError::BranchNotFound);
        },
    };
    let head_tip = match store::find_reference(&repo, head_ref_name.as_str()) {
        Ok(r) => match store::reference_tip_oid(&r) {
            Ok(oid) => oid,
            Err(_) => {
                return Err(GitError::BranchNotFound);
            },
        },
        Err(_) => {
            return Err(GitError::BranchNotFound);
        },
    };
    let mut index = match store::merge_commits_index(&repo, &base_tip, &head_tip) {
        Ok(i) => i,
        Err(_) => {
            return Err(GitError::MergeConflict);
        },
    };
    if store::index_has_conflicts(&index) {
        return Err(GitError::MergeConflict);
    }
    let tree_oid = match store::index_write_tree_to(&mut index, &repo) {
        Ok(t) => t,
        Err(_) => {
            return Err(GitError::Internal);
        },
    };
    let sig = match store::signature_now(author_name, author_email) {
        Ok(s) => s,
        Err(_) => {
            return Err(GitError::Internal);
        },
    };
    let message = merge_message(base, head);
    let new_oid = match store::create_merge_commit(
        &repo,
        &sig,
        message.as_str(),
        &tree_oid,
        &base_tip,
        &head_tip,
    ) {
        Ok(oid) => oid,
        Err(_) => {
            return Err(GitError::Internal);
        },
    };
    match store::reference_compare_and_set(
        &repo,
        base_ref_name.as_str(),
        &new_oid,
        &base_tip,
        "merge: advance base branch",
    ) {
        Ok(()) => Ok(store::oid_hex(&new_oid)),
        Err(e) => {
            if store::error_is_modified(&e) {
                Err(GitError::RefMoved)
            } else {
                Err(GitError::RefUpdateFailed)
            }
        },
    }
}

} // verus!
