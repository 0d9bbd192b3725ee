//! Review value types and the decision rule of a review update: which
//! fields change.  The review rows themselves live in the relational
//! layer outside the core.

use vstd::prelude::*;
use vstd::string::StringExecFns;

verus! {

/// How a review judges the change.
#[derive(Clone, Copy, Debug, PartialEq, Eq, Structural)]
pub enum ReviewStatus {
    Approved,
    ChangesRequested,
}

impl ReviewStatus {
    /// The fixed text of each judgment, as it is stored and served.
    pub open spec fn text_spec(&self) -> Seq<char> {
        match self {
            ReviewStatus::Approved => "approved"@,
            ReviewStatus::ChangesRequested => "changes_requested"@,
        }
    }

    /// The text of this judgment.
    pub fn status_text(&self) -> (s: String)
        ensures
            s@ == self.text_spec(),
    {
        match self {
            ReviewStatus::Approved => String::from_str("approved"),
            ReviewStatus::ChangesRequested => String::from_str("changes_requested"),
        }
    }
}

/// A request to submit a review.
pub struct NewReview {
    pub status: ReviewStatus,
    pub body: Option<String>,
}

/// A request to change a review: absent fields stay as they are.
pub struct UpdateReview {
    pub status: Option<ReviewStatus>,
    pub body: Option<String>,
}

/// What a review update stores.
pub struct ReviewUpdatePlan {
    pub new_status: String,
    pub new_body: Option<String>,
}

/// Decides what a review update changes: the stored status becomes the
/// requested judgment's text (or stays), and a body replaces the old one
/// only when given.
pub fn plan_review_update(
    current_status: String,
    current_body: Option<String>,
    update: UpdateReview,
) -> (p: ReviewUpdatePlan)
    ensures
        p.new_status@ == (match update.status {
            Some(s) => s.text_spec(),
            None => current_status@,
        }),
        p.new_body == (match update.body {
            Some(b) => Some(b),
            None => current_body,
        }),
{
    let new_status = match update.status {
        Some(s) => s.status_text(),
        None => current_status,
    };
    let new_body = match update.body {
        Some(b) => Some(b),
        None => current_body,
    };
    ReviewUpdatePlan { new_status, new_body }
}

} // verus!
