//! Pull-request value types and the decision rule of an update request:
//! which fields change, and whether the update triggers a merge.  The
//! bookkeeping rows themselves live in the relational layer outside the
//! core.

use vstd::prelude::*;
use vstd::string::StringExecFns;

verus! {

/// The lifecycle state of a pull request.
#[derive(Clone, Copy, Debug, PartialEq, Eq, Structural)]
pub enum PullRequestStatus {
    Open,
    Closed,
    Merged,
}

impl PullRequestStatus {
    /// The fixed text of each state, as it is stored and served.
    pub open spec fn text_spec(&self) -> Seq<char> {
        match self {
            PullRequestStatus::Open => "open"@,
            PullRequestStatus::Closed => "closed"@,
            PullRequestStatus::Merged => "merged"@,
        }
    }

    /// The text of this state.
    pub fn status_text(&self) -> (s: String)
        ensures
            s@ == self.text_spec(),
    {
        match self {
            PullRequestStatus::Open => String::from_str("open"),
            PullRequestStatus::Closed => String::from_str("closed"),
            PullRequestStatus::Merged => String::from_str("merged"),
        }
    }
}

/// A request to open a pull request.
pub struct NewPullRequest {
    pub title: String,
    pub body: Option<String>,
    pub base_branch: String,
    pub head_branch: String,
}

/// A request to change a pull request: absent fields stay as they are.
pub struct UpdatePullRequest {
    pub status: Option<PullRequestStatus>,
    pub title: Option<String>,
    pub body: Option<String>,
}

/// What an update request decides: the fields to store, and whether a
/// merge must be performed first.
pub struct PullRequestUpdatePlan {
    pub new_status: String,
    pub new_title: String,
    pub new_body: Option<String>,
    pub needs_merge: bool,
}

/// Decides what an update request changes.
///
/// A merge is performed exactly when the update asks for the `merged`
/// state and the pull request is not already merged.  The stored status
/// becomes the requested state's text (or stays); the title is replaced
/// when given; a body is replaced when given and otherwise kept.
pub fn plan_pull_request_update(
    current_status: &String,
    current_title: String,
    current_body: Option<String>,
    update: UpdatePullRequest,
) -> (p: PullRequestUpdatePlan)
    ensures
        p.needs_merge == (update.status matches Some(s) && s is Merged && current_status@
            != "merged"@),
        p.new_status@ == (match update.status {
            Some(s) => s.text_spec(),
            None => current_status@,
        }),
        p.new_title == (match update.title {
            Some(t) => t,
            None => current_title,
        }),
        p.new_body == (match update.body {
            Some(b) => Some(b),
            None => current_body,
        }),
{
    let merged_text = String::from_str("merged");
    let needs_merge = match update.status {
        Some(PullRequestStatus::Merged) => !(*current_status == merged_text),
        _ => false,
    };
    let new_status = match update.status {
        Some(s) => s.status_text(),
        None => current_status.clone(),
    };
    let new_title = match update.title {
        Some(t) => t,
        None => current_title,
    };
    let new_body = match update.body {
        Some(b) => Some(b),
        None => current_body,
    };
    PullRequestUpdatePlan { new_status, new_title, new_body, needs_merge }
}

} // verus!
