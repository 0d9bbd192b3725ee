//! Tree-to-tree diffing of two branches, rendered as one patch text.
//!
//! The object store reports the patch line by line, each with an origin
//! marker; the rendering keeps `+`, `-` and space markers and collapses
//! every other marker to a space, then concatenates marker and content
//! for every line.

use vstd::prelude::*;
use vstd::string::StringExecFns;

use crate::errors::GitError;
use crate::lifecycle::repo_path;
use crate::reader::local_ref;
use crate::store;

verus! {

/// The marker a diff line is rendered with: `+`, `-` and space stay,
/// every other origin collapses to a space.
pub open spec fn norm_marker(c: char) -> char {
    if c == '+' || c == '-' || c == ' ' {
        c
    } else {
        ' '
    }
}

/// The rendered patch: for every line its normalized marker followed by
/// its content, all concatenated in order.
pub open spec fn patch_text(lines: Seq<(char, Seq<char>)>) -> Seq<char>
    decreases lines.len(),
{
    if lines.len() == 0 {
        Seq::empty()
    } else {
        seq![norm_marker(lines[0].0)] + lines[0].1 + patch_text(
            lines.subrange(1, lines.len() as int),
        )
    }
}

/// View of collected diff lines as marker/content pairs.
pub open spec fn diff_lines_view(ls: Seq<(char, String)>) -> Seq<(char, Seq<char>)> {
    ls.map_values(|p: (char, String)| (p.0, p.1@))
}

/// A diff with no lines renders as the empty patch text.
///
/// Diffing a branch against itself reports no lines, so its patch text
/// is empty.
pub proof fn lemma_empty_patch(lines: Seq<(char, Seq<char>)>)
    requires
        lines.len() == 0,
    ensures
        patch_text(lines) == Seq::<char>::empty(),
{
}

/// Renders collected diff lines as one patch text.
pub fn format_patch(lines: &Vec<(char, String)>) -> (r: String)
    ensures
        r@ == patch_text(diff_lines_view(lines@)),
{
    let n: usize = lines.len();
    let ghost dv = diff_lines_view(lines@);
    let mut out = String::new();
    let mut i: usize = 0;
    proof {
        assert(dv.subrange(0, n as int) =~= dv);
    }
    while i < n
        invariant
            i <= n,
            n == lines@.len(),
            dv == diff_lines_view(lines@),
            dv.len() == n,
            out@ + patch_text(dv.subrange(i as int, n as int)) == patch_text(dv),
        decreases n - i,
    {
        let ghost rest = dv.subrange(i as int, n as int);
        proof {
            assert(rest[0] == dv[i as int]);
            assert(dv[i as int] == (lines@[i as int].0, lines@[i as int].1@));
            assert(rest.subrange(1, rest.len() as int) =~= dv.subrange(i + 1, n as int));
        }
        let marker = lines[i].0;
        if marker == '+' {
            out.append("+");
            proof {
                reveal_strlit("+");
                assert("+"@ =~= seq![norm_marker(marker)]);
            }
        } else if marker == '-' {
            out.append("-");
            proof {
                reveal_strlit("-");
                assert("-"@ =~= seq![norm_marker(marker)]);
            }
        } else {
            out.append(" ");
            proof {
                reveal_strlit(" ");
                assert(" "@ =~= seq![norm_marker(marker)]);
            }
        }
        out.append(lines[i].1.as_str());
        i = i + 1;
    }
    proof {
        assert(dv.subrange(n as int, n as int) =~= Seq::<(char, Seq<char>)>::empty());
        assert(out@ + Seq::<char>::empty() =~= out@);
    }
    out
}

/// Diffs the root trees of two branches of `<root>/<repo_name>.git` and
/// renders the result as one patch text, file by file, hunk by hunk.
/// Read-only: nothing in the repository changes.
pub fn diff_branches(root: &str, repo_name: &str, base: &str, head: &str) -> (r: Result<
    String,
    GitError,
>)
    ensures
        r matches Err(e) ==> (e is RepositoryNotFound || e is BranchNotFound || e is Internal),
{
    let repo_dir = repo_path(root, repo_name);
    let repo = match store::repo_open(repo_dir.as_str()) {
        Ok(r) => r,
        Err(_) => {
            return Err(GitError::RepositoryNotFound);
        },
    };
    let base_ref_name = local_ref(base);
    let head_ref_name = local_ref(head);
    let base_tip = match store::find_reference(&repo, base_ref_name.as_str()) {
        Ok(r) => match store::reference_tip_oid(&r) {
            Ok(oid) => oid,
            Err(_) => {
                return Err(GitError::BranchNotFound);
            },
        },
        Err(_) => {
            return Err(GitError::BranchNotFound);
        },
    };
    let head_tip = match store::find_reference(&repo, head_ref_name.as_str()) {
        Ok(r) => match store::reference_tip_oid(&r) {
            Ok(oid) => oid,
            Err(_) => {
                return Err(GitError::BranchNotFound);
            },
        },
        Err(_) => {
            return Err(GitError::BranchNotFound);
        },
    };
    let base_tree = match store::commit_tree_oid(&repo, &base_tip) {
        Ok(t) => t,
        Err(_) => {
            return Err(GitError::Internal);
        },
    };
    let head_tree = match store::commit_tree_oid(&repo, &head_tip) {
        Ok(t) => t,
        Err(_) => {
            return Err(GitError::Internal);
        },
    };
    let diff = match store::diff_trees(&repo, &base_tree, &head_tree) {
        Ok(d) => d,
        Err(_) => {
            return Err(GitError::Internal);
        },
    };
    let lines = match store::diff_lines(&diff) {
        Ok(l) => l,
        Err(_) => {
            return Err(GitError::Internal);
        },
    };
    Ok(format_patch(&lines))
}

} // verus!
