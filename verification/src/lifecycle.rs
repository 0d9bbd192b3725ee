//! Creation and deletion of bare repositories under a project root.

use vstd::prelude::*;
use vstd::string::StringExecFns;
use vstd::string::StringSliceAdditionalSpecFns;

use crate::errors::GitError;
use crate::store;

verus! {

/// The directory of the repository named `name`: `<root>/<name>.git`.
pub open spec fn repo_path_spec(root: Seq<char>, name: Seq<char>) -> Seq<char> {
    root + "/"@ + name + ".git"@
}

/// A repository as the service reports it.
pub struct Repo {
    pub name: String,
    pub public: bool,
}

/// A request to create a repository; visibility defaults to private.
pub struct CreateRepoRequest {
    pub name: String,
    pub public: Option<bool>,
}

/// A repository name is acceptable when it is non-empty and contains
/// neither a path separator nor a `..` sequence, so that it can only
/// name a direct child of the project root.
pub open spec fn valid_name_bytes(s: Seq<u8>) -> bool {
    &&& s.len() > 0
    &&& forall|i: int| 0 <= i < s.len() ==> s[i] != 47u8
    &&& forall|i: int| 1 <= i < s.len() ==> #[trigger] s[i] != 46u8 || s[i - 1] != 46u8
}

/// Checks that a repository name is non-empty, has no `/` and no `..`.
pub fn valid_name(name: &str) -> (r: bool)
    ensures
        r == valid_name_bytes(name.spec_bytes()),
{
    let b: &[u8] = name.as_bytes();
    let n: usize = b.len();
    if n == 0 {
        return false;
    }
    let mut i: usize = 0;
    while i < n
        invariant
            0 <= i <= n,
            n == b@.len(),
            b@ == name.spec_bytes(),
            forall|j: int| 0 <= j < i ==> b@[j] != 47u8,
            forall|j: int| 1 <= j <= i && j < n ==> #[trigger] b@[j] != 46u8 || b@[j - 1] != 46u8,
        decreases n - i,
    {
        if b[i] == 47u8 {
            proof {
                assert(b@[i as int] == 47u8);
            }
            return false;
        }
        if i + 1 < n && b[i] == 46u8 && b[i + 1] == 46u8 {
            proof {
                assert(b@[i + 1] == 46u8 && b@[i + 1 - 1] == 46u8);
            }
            return false;
        }
        i = i + 1;
    }
    true
}

/// Builds the on-disk directory path of the repository named `name`.
pub fn repo_path(root: &str, name: &str) -> (r: String)
    ensures
        r@ == repo_path_spec(root@, name@),
{
    let mut s = String::new();
    s.append(root);
    s.append("/");
    s.append(name);
    s.append(".git");
    proof {
        assert(s@ =~= repo_path_spec(root@, name@));
    }
    s
}

/// Creates the bare repository `<root>/<name>.git` and enables push over
/// the smart-HTTP gateway (`http.receivepack`).
///
/// An invalid name is rejected before anything touches the filesystem, so
/// rejection has no side effect.  An existing directory is reported as
/// `AlreadyExists`; a failure of the object store as `IoError`.
pub fn create_repository(root: &str, name: &str) -> (r: Result<(), GitError>)
    ensures
        (r matches Err(e) && e is InvalidName) <==> !valid_name_bytes(name.spec_bytes()),
        r matches Err(e) ==> (e is InvalidName || e is AlreadyExists || e is IoError),
{
    if !valid_name(name) {
        return Err(GitError::InvalidName);
    }
    let path = repo_path(root, name);
    if store::path_exists(path.as_str()) {
        return Err(GitError::AlreadyExists);
    }
    match store::repo_init_bare(path.as_str()) {
        Ok(repo) => {
            let _ = store::repo_config_set_bool(&repo, "http.receivepack", true);
            Ok(())
        },
        Err(_) => Err(GitError::IoError),
    }
}

/// Carries out a creation request: validates the name, initializes the
/// bare repository, and reports the repository as it will be listed.
pub fn create_from_request(root: &str, req: &CreateRepoRequest) -> (r: Result<Repo, GitError>)
    ensures
        (r matches Err(e) && e is InvalidName) <==> !valid_name_bytes(
            vstd::utf8::encode_utf8(req.name@),
        ),
        r matches Err(e) ==> (e is InvalidName || e is AlreadyExists || e is IoError),
        r matches Ok(rep) ==> rep.name == req.name && rep.public == (match req.public {
            Some(b) => b,
            None => false,
        }),
{
    match create_repository(root, req.name.as_str()) {
        Ok(()) => {
            let public = match req.public {
                Some(b) => b,
                None => false,
            };
            Ok(Repo { name: req.name.clone(), public })
        },
        Err(e) => Err(e),
    }
}

/// Decides what `delete` must remove: the repository directory, provided
/// it exists.  The caller performs the recursive removal of the returned
/// directory and reports `IoError` if that fails; this split keeps the
/// all-or-nothing decision verified while the filesystem edge stays thin.
///
/// A name that no repository can have, and a directory that is absent,
/// are both `NotFound`.
pub fn delete_repository(root: &str, name: &str) -> (r: Result<String, GitError>)
    ensures
        !valid_name_bytes(name.spec_bytes()) ==> (r matches Err(e) && e is NotFound),
        r matches Ok(p) ==> p@ == repo_path_spec(root@, name@),
        r matches Err(e) ==> e is NotFound,
{
    if !valid_name(name) {
        return Err(GitError::NotFound);
    }
    let path = repo_path(root, name);
    if store::path_exists(path.as_str()) {
        Ok(path)
    } else {
        Err(GitError::NotFound)
    }
}

} // verus!
