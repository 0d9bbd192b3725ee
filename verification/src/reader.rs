//! Read-only browsing of a repository's object graph: branches, tree
//! listings at an optional sub-path, and commit history.

use vstd::prelude::*;
use vstd::string::StringExecFns;
use vstd::string::StringSliceAdditionalSpecFns;
use vstd::utf8::encode_utf8;
use vstd::utf8::encode_utf8_valid_utf8;

use crate::dates;
use crate::errors::GitError;
use crate::lifecycle::repo_path;
use crate::store;
use crate::store::EntryKind;
use crate::store::PathLookup;
use crate::text::has_prefix;
use crate::text::lemma_ascii_prefix_is_boundary;
use crate::text::starts_with;

verus! {

/// A branch, by its short name.
#[derive(Debug)]
pub struct Branch {
    pub name: String,
}

/// One entry of a tree listing: its name and whether it is a `blob`, a
/// `tree`, or something else (`unknown`).
#[derive(Debug)]
pub struct TreeEntry {
    pub name: String,
    pub entry_type: String,
}

/// One entry of a commit history: hex id, message, author name, and the
/// commit time rendered as calendar text.
#[derive(Debug)]
pub struct Commit {
    pub id: String,
    pub message: String,
    pub author: String,
    pub date: String,
}

/// The full name of a local branch reference.
pub fn local_ref(branch: &str) -> (r: String)
    ensures
        r@ == "refs/heads/"@ + branch@,
{
    let mut s = String::new();
    s.append("refs/heads/");
    s.append(branch);
    s
}

/// The full name of the `origin` remote-tracking reference of a branch.
pub fn remote_ref(branch: &str) -> (r: String)
    ensures
        r@ == "refs/remotes/origin/"@ + branch@,
{
    let mut s = String::new();
    s.append("refs/remotes/origin/");
    s.append(branch);
    s
}

/// The path with one leading and one trailing `/` stripped, in that order.
pub open spec fn strip_slashes(s: Seq<u8>) -> Seq<u8> {
    let t = if s.len() > 0 && s[0] == 47u8 {
        s.subrange(1, s.len() as int)
    } else {
        s
    };
    if t.len() > 0 && t[t.len() - 1] == 47u8 {
        t.subrange(0, t.len() - 1)
    } else {
        t
    }
}

/// Strips one leading and one trailing `/` from a sub-path, as bytes.
pub fn normalize_path(p: &str) -> (r: Vec<u8>)
    ensures
        r@ == strip_slashes(p.spec_bytes()),
{
    let b: &[u8] = p.as_bytes();
    let n: usize = b.len();
    let a: usize = if n > 0 && b[0] == 47u8 {
        1
    } else {
        0
    };
    let e: usize = if n > a && b[n - 1] == 47u8 {
        n - 1
    } else {
        n
    };
    let mut out: Vec<u8> = Vec::new();
    let mut i: usize = a;
    while i < e
        invariant
            a <= i <= e <= n,
            n == b@.len(),
            out@ =~= b@.subrange(a as int, i as int),
        decreases e - i,
    {
        out.push(b[i]);
        proof {
            assert(out@ =~= b@.subrange(a as int, i + 1));
        }
        i = i + 1;
    }
    proof {
        assert(out@ =~= strip_slashes(b@));
    }
    out
}

/// The name a tree entry kind is listed under.
pub open spec fn kind_text(k: EntryKind) -> Seq<char> {
    match k {
        EntryKind::Blob => "blob"@,
        EntryKind::Tree => "tree"@,
        EntryKind::Other => "unknown"@,
    }
}

/// The listing name of a tree entry kind.
fn kind_string(k: &EntryKind) -> (s: String)
    ensures
        s@ == kind_text(*k),
{
    match k {
        EntryKind::Blob => String::from_str("blob"),
        EntryKind::Tree => String::from_str("tree"),
        EntryKind::Other => String::from_str("unknown"),
    }
}

/// The bytes of `refs/heads/`.
pub open spec fn heads_prefix() -> Seq<u8> {
    seq![114u8, 101u8, 102u8, 115u8, 47u8, 104u8, 101u8, 97u8, 100u8, 115u8, 47u8]
}

/// The bytes of `refs/remotes/`.
pub open spec fn remotes_prefix() -> Seq<u8> {
    seq![114u8, 101u8, 102u8, 115u8, 47u8, 114u8, 101u8, 109u8, 111u8, 116u8, 101u8, 115u8, 47u8]
}

/// The short branch name carried by a full reference name, as bytes:
/// what follows `refs/heads/` for a local branch, what follows
/// `refs/remotes/` for a remote-tracking one (keeping the remote, as in
/// `origin/main`), and `None` for any other reference.
pub open spec fn short_name_bytes(b: Seq<u8>) -> Option<Seq<u8>> {
    if starts_with(b, heads_prefix()) {
        Some(b.subrange(11, b.len() as int))
    } else if starts_with(b, remotes_prefix()) {
        Some(b.subrange(13, b.len() as int))
    } else {
        None
    }
}

fn heads_prefix_bytes() -> (v: Vec<u8>)
    ensures
        v@ =~= heads_prefix(),
{
    let mut v: Vec<u8> = Vec::new();
    v.push(114u8);
    v.push(101u8);
    v.push(102u8);
    v.push(115u8);
    v.push(47u8);
    v.push(104u8);
    v.push(101u8);
    v.push(97u8);
    v.push(100u8);
    v.push(115u8);
    v.push(47u8);
    v
}

fn remotes_prefix_bytes() -> (v: Vec<u8>)
    ensures
        v@ =~= remotes_prefix(),
{
    let mut v: Vec<u8> = Vec::new();
    v.push(114u8);
    v.push(101u8);
    v.push(102u8);
    v.push(115u8);
    v.push(47u8);
    v.push(114u8);
    v.push(101u8);
    v.push(109u8);
    v.push(111u8);
    v.push(116u8);
    v.push(101u8);
    v.push(115u8);
    v.push(47u8);
    v
}

/// The short branch name carried by a reference's full name, exactly as
/// `short_name_bytes` describes it.
pub fn short_branch_name(full: &str) -> (r: Option<String>)
    ensures
        r matches Some(t) ==> short_name_bytes(full.spec_bytes()) == Some(encode_utf8(t@)),
        r is None <==> short_name_bytes(full.spec_bytes()) is None,
{
    let b: &[u8] = full.as_bytes();
    let hp = heads_prefix_bytes();
    let rp = remotes_prefix_bytes();
    let cut: usize = if has_prefix(b, hp.as_slice()) {
        11
    } else if has_prefix(b, rp.as_slice()) {
        13
    } else {
        return None;
    };
    proof {
        assert forall|j: int| 0 <= j < cut implies full.spec_bytes()[j] < 128 by {
            assert(b@.subrange(0, cut as int)[j] == b@[j]);
        }
        encode_utf8_valid_utf8(full@);
        lemma_ascii_prefix_is_boundary(full.spec_bytes(), cut as int);
    }
    let (_, rest) = full.split_at(cut);
    Some(rest.to_owned())
}

/// Lists the short names of all branches of `<root>/<repo_name>.git`,
/// local and remote-tracking alike.
///
/// Fails only when the repository itself cannot be opened; a failure of
/// the reference iterator yields the branches seen so far, as the service
/// always answered.
pub fn list_branches(root: &str, repo_name: &str) -> (r: Result<Vec<Branch>, GitError>)
    ensures
        r matches Err(e) ==> e is RepositoryNotFound,
{
    let path = repo_path(root, repo_name);
    let repo = match store::repo_open(path.as_str()) {
        Ok(r) => r,
        Err(_) => {
            return Err(GitError::RepositoryNotFound);
        },
    };
    let mut out: Vec<Branch> = Vec::new();
    let mut it = match store::repo_references(&repo) {
        Ok(it) => it,
        Err(_) => {
            return Ok(out);
        },
    };
    let mut fuel: usize = usize::MAX;
    let mut done = false;
    while !done && fuel > 0
        decreases fuel,
    {
        fuel = fuel - 1;
        match store::references_next(&mut it) {
            Some(Ok(Some(full))) => {
                match short_branch_name(full.as_str()) {
                    Some(n) => {
                        out.push(Branch { name: n });
                    },
                    None => {},
                }
            },
            Some(Ok(None)) => {},
            Some(Err(_)) => {},
            None => {
                done = true;
            },
        }
    }
    Ok(out)
}

/// Every entry of a listing names one of the three entry kinds.
pub open spec fn listed_kinds_ok(v: Seq<TreeEntry>) -> bool {
    forall|k: int|
        0 <= k < v.len() ==> {
            let t = (#[trigger] v[k]).entry_type@;
            t == "blob"@ || t == "tree"@ || t == "unknown"@
        }
}

/// The raw entry data of one tree in stored order, as the store reports
/// it: each entry's name (`None` when not valid UTF-8) and kind.  What
/// the store hands back cannot be pinned by a contract; everything done
/// with it stands in `build_listing`, which can.
fn collect_entries(tree: &git2::Tree<'_>) -> Vec<(Option<String>, EntryKind)> {
    let n: usize = store::tree_len(tree);
    let mut out: Vec<(Option<String>, EntryKind)> = Vec::new();
    let mut i: usize = 0;
    while i < n
        decreases n - i,
    {
        match store::tree_entry_at(tree, i) {
            Some(p) => {
                out.push(p);
            },
            None => {},
        }
        i = i + 1;
    }
    out
}

/// What a listing makes of raw entry data: the entries with a readable
/// name, in order, each paired with its kind.
pub open spec fn named_entries(raw: Seq<(Option<String>, EntryKind)>) -> Seq<(String, EntryKind)>
    decreases raw.len(),
{
    if raw.len() == 0 {
        Seq::empty()
    } else {
        let rest = named_entries(raw.subrange(1, raw.len() as int));
        match raw[0].0 {
            Some(n) => seq![(n, raw[0].1)] + rest,
            None => rest,
        }
    }
}

/// Assembles a listing from raw entry data: exactly the entries with a
/// readable name, in stored order, each under its kind's listing name.
pub fn build_listing(raw: &Vec<(Option<String>, EntryKind)>) -> (v: Vec<TreeEntry>)
    ensures
        v@.len() == named_entries(raw@).len(),
        forall|k: int|
            0 <= k < v@.len() ==> (#[trigger] v@[k]).name == named_entries(raw@)[k].0
                && v@[k].entry_type@ == kind_text(named_entries(raw@)[k].1),
        listed_kinds_ok(v@),
{
    let n: usize = raw.len();
    let mut out: Vec<TreeEntry> = Vec::new();
    let ghost mut done: Seq<(String, EntryKind)> = Seq::empty();
    let mut i: usize = 0;
    proof {
        assert(raw@.subrange(0, n as int) =~= raw@);
    }
    while i < n
        invariant
            i <= n,
            n == raw@.len(),
            named_entries(raw@) =~= done + named_entries(raw@.subrange(i as int, n as int)),
            out@.len() == done.len(),
            forall|k: int|
                0 <= k < out@.len() ==> (#[trigger] out@[k]).name == done[k].0
                    && out@[k].entry_type@ == kind_text(done[k].1),
        decreases n - i,
    {
        let ghost rest = raw@.subrange(i as int, n as int);
        proof {
            assert(rest[0] == raw@[i as int]);
            assert(rest.subrange(1, rest.len() as int) =~= raw@.subrange(i + 1, n as int));
        }
        let p: &(Option<String>, EntryKind) = &raw[i];
        match &p.0 {
            Some(name) => {
                let entry_type = kind_string(&p.1);
                let ghost prev = out@;
                out.push(TreeEntry { name: name.clone(), entry_type });
                proof {
                    done = done.push((*name, raw@[i as int].1));
                    assert(named_entries(rest) =~= seq![(*name, raw@[i as int].1)]
                        + named_entries(raw@.subrange(i + 1, n as int)));
                    assert(done + named_entries(raw@.subrange(i + 1, n as int)) =~= named_entries(
                        raw@,
                    ));
                }
            },
            None => {},
        }
        i = i + 1;
    }
    proof {
        assert(named_entries(raw@.subrange(n as int, n as int)) =~= Seq::<(
            String,
            EntryKind,
        )>::empty());
        assert(done + Seq::<(String, EntryKind)>::empty() =~= done);
        assert(named_entries(raw@) =~= done);
    }
    out
}

/// Collects the entries of one tree into a listing.
fn list_entries(tree: &git2::Tree<'_>) -> (v: Vec<TreeEntry>)
    ensures
        listed_kinds_ok(v@),
{
    let raw = collect_entries(tree);
    build_listing(&raw)
}

/// The outcome a path lookup decides: the sub-tree id to descend into,
/// or the precise error — a missing path and a path that names
/// something other than a directory stay distinguishable.
pub fn classify_path_lookup(l: PathLookup) -> (r: Result<git2::Oid, GitError>)
    ensures
        (match l {
            PathLookup::TreeAt(t) => r matches Ok(o) && o == t,
            PathLookup::Missing => r == Err::<git2::Oid, GitError>(GitError::PathNotFound),
            PathLookup::NonTree => r == Err::<git2::Oid, GitError>(GitError::NotADirectory),
        }),
{
    match l {
        PathLookup::TreeAt(t) => Ok(t),
        PathLookup::Missing => Err(GitError::PathNotFound),
        PathLookup::NonTree => Err(GitError::NotADirectory),
    }
}

/// Lists the tree of `branch` at `path`: the branch resolves to its
/// commit's root tree, and a non-empty path (after `/`-stripping) must
/// name a sub-tree.
///
/// The failure kinds stay distinguishable: a missing repository, a
/// missing branch, a path that does not exist, and a path that names a
/// blob are four different errors.
pub fn list_tree(root: &str, repo_name: &str, branch: &str, path: Option<&str>) -> (r: Result<
    Vec<TreeEntry>,
    GitError,
>)
    ensures
        r matches Err(e) ==> (e is RepositoryNotFound || e is BranchNotFound || e is PathNotFound
            || e is NotADirectory || e is Internal),
        r matches Ok(v) ==> listed_kinds_ok(v@),
{
    let repo_dir = repo_path(root, repo_name);
    let repo = match store::repo_open(repo_dir.as_str()) {
        Ok(r) => r,
        Err(_) => {
            return Err(GitError::RepositoryNotFound);
        },
    };
    let ref_name = local_ref(branch);
    let branch_ref = match store::find_reference(&repo, ref_name.as_str()) {
        Ok(b) => b,
        Err(_) => {
            return Err(GitError::BranchNotFound);
        },
    };
    let tip = match store::reference_tip_oid(&branch_ref) {
        Ok(c) => c,
        Err(_) => {
            return Err(GitError::Internal);
        },
    };
    let root_tree_oid = match store::commit_tree_oid(&repo, &tip) {
        Ok(t) => t,
        Err(_) => {
            return Err(GitError::Internal);
        },
    };
    let tree = match store::find_tree(&repo, &root_tree_oid) {
        Ok(t) => t,
        Err(_) => {
            return Err(GitError::Internal);
        },
    };
    match path {
        None => Ok(list_entries(&tree)),
        Some(p) => {
            let norm = normalize_path(p);
            if norm.len() == 0 {
                Ok(list_entries(&tree))
            } else {
                match classify_path_lookup(store::tree_lookup(&tree, norm.as_slice())) {
                    Err(e) => Err(e),
                    Ok(oid) => {
                        let sub = match store::find_tree(&repo, &oid) {
                            Ok(t) => t,
                            Err(_) => {
                                return Err(GitError::Internal);
                            },
                        };
                        Ok(list_entries(&sub))
                    },
                }
            }
        },
    }
}

/// Assembles one history entry from what the object store reported: a
/// missing message becomes the empty string and an unreadable author name
/// the fixed placeholder `Unknown`.
pub fn build_commit_entry(id: String, message: Option<String>, author: Option<String>, date: String)
    -> (c: Commit)
    ensures
        c.id == id,
        c.date == date,
        c.message@ == (match message {
            Some(m) => m@,
            None => Seq::<char>::empty(),
        }),
        c.author@ == (match author {
            Some(a) => a@,
            None => "Unknown"@,
        }),
{
    let message = match message {
        Some(m) => m,
        None => String::new(),
    };
    let author = match author {
        Some(a) => a,
        None => String::from_str("Unknown"),
    };
    Commit { id, message, author, date }
}

/// Every history entry has a forty-digit hex id.
pub open spec fn history_ids_ok(v: Seq<Commit>) -> bool {
    forall|k: int| 0 <= k < v.len() ==> (#[trigger] v[k]).id@.len() == 40
}

/// The commit history from the tip of `branch`, in the order the
/// store's default revision walk yields it (git's newest-first log
/// order).
///
/// A local branch is preferred; a remote-only branch stays browsable
/// through its `origin/<branch>` remote-tracking name.  A commit whose
/// time cannot be rendered as a calendar date is an `Internal` failure.
pub fn commit_history(root: &str, repo_name: &str, branch: &str) -> (r: Result<
    Vec<Commit>,
    GitError,
>)
    ensures
        r matches Err(e) ==> (e is RepositoryNotFound || e is BranchNotFound || e is Internal),
        r matches Ok(v) ==> history_ids_ok(v@),
{
    let repo_dir = repo_path(root, repo_name);
    let repo = match store::repo_open(repo_dir.as_str()) {
        Ok(r) => r,
        Err(_) => {
            return Err(GitError::RepositoryNotFound);
        },
    };
    let local_name = local_ref(branch);
    let branch_ref = match store::find_reference(&repo, local_name.as_str()) {
        Ok(b) => b,
        Err(_) => {
            let remote_name = remote_ref(branch);
            match store::find_reference(&repo, remote_name.as_str()) {
                Ok(b) => b,
                Err(_) => {
                    return Err(GitError::BranchNotFound);
                },
            }
        },
    };
    let tip = match store::reference_tip_oid(&branch_ref) {
        Ok(c) => c,
        Err(_) => {
            return Err(GitError::Internal);
        },
    };
    let mut walk = match store::revwalk_new(&repo) {
        Ok(w) => w,
        Err(_) => {
            return Err(GitError::Internal);
        },
    };
    match store::revwalk_push(&mut walk, &tip) {
        Ok(()) => {},
        Err(_) => {
            return Err(GitError::Internal);
        },
    }
    let mut out: Vec<Commit> = Vec::new();
    let mut fuel: usize = usize::MAX;
    let mut done = false;
    while !done && fuel > 0
        invariant
            history_ids_ok(out@),
        decreases fuel,
    {
        fuel = fuel - 1;
        match store::revwalk_next(&mut walk) {
            Some(Ok(oid)) => {
                match store::commit_info(&repo, &oid) {
                    Ok((message, author, secs)) => {
                        let date = match dates::format_rfc2822(secs) {
                            Some(d) => d,
                            None => {
                                return Err(GitError::Internal);
                            },
                        };
                        let entry = build_commit_entry(store::oid_hex(&oid), message, author, date);
                        out.push(entry);
                    },
                    Err(_) => {},
                }
            },
            Some(Err(_)) => {},
            None => {
                done = true;
            },
        }
    }
    Ok(out)
}

} // verus!
