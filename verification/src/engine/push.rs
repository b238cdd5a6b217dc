//! Publishing: commit everything, then send the branch to the remote. A push
//! that fails is a warning, since the commit stands.

use vstd::prelude::*;
use crate::error::{Disposition, ErrorKind, SyncError};
use crate::git::repository::{branch_reference, commit_on, CommitRequest, GitRepository, PushRequest};

verus! {

/// A commit followed by a push.
#[derive(Debug)]
pub struct PushPlan {
    /// The commit to write.
    pub commit: CommitRequest,
    /// The transmission to make after it, or why none can be made.
    pub transmit: Result<PushRequest, SyncError>,
}

impl PushPlan {
    /// Whether this plan is the one for the store `repo` with the commit
    /// message `message`.
    pub open spec fn is_for(&self, repo: &GitRepository, message: Seq<char>) -> bool {
        &&& self.commit@ == commit_on(repo@.head, message)
        &&& match self.transmit {
            Ok(r) => repo.has_origin && r.remote@ == "origin"@ && r.refspec@ == branch_reference(
                repo.branch@,
            ) + ":"@ + branch_reference(repo.branch@),
            Err(e) => !repo.has_origin && e.kind == ErrorKind::RepositoryFailure && e.context@
                == "origin"@,
        }
    }
}

/// Plans a commit with the message `message` and the push that follows it.
pub fn publish(repo: &GitRepository, message: &str) -> (plan: PushPlan)
    ensures
        plan.is_for(repo, message@),
{
    PushPlan { commit: repo.commit_all(message), transmit: repo.push() }
}

/// Plans the publication of the managed directory as it stands.
pub fn push(repo: &GitRepository) -> (plan: PushPlan)
    ensures
        plan.is_for(repo, "Update configurations (configsync)"@),
{
    publish(repo, "Update configurations (configsync)")
}

/// What follows the commit of a publication.
#[derive(Debug)]
pub enum AfterCommit {
    /// Make this transmission, then see [`after_push`].
    Push(PushRequest),
    /// The publication is over.
    Done(Disposition),
}

/// A success with the given warning, if any.
fn success(warning: Option<SyncError>) -> (end: Disposition)
    ensures
        match warning {
            Some(w) => end matches Disposition::Success { warnings } && warnings@ == seq![w],
            None => end matches Disposition::Success { warnings } && warnings@.len() == 0,
        },
{
    let mut warnings: Vec<SyncError> = Vec::new();
    match warning {
        Some(w) => {
            warnings.push(w);
        },
        None => {},
    }
    Disposition::Success { warnings }
}

/// Decides what follows the commit, from what became of it: `None` stands for
/// success. A failed commit ends the publication as a failure, and nothing is
/// sent. After a commit that stands, the push is made; where none can be
/// made, the publication ends as a success with that as its warning.
pub fn after_commit(plan: PushPlan, committed: Option<SyncError>) -> (next: AfterCommit)
    ensures
        match committed {
            Some(e) => next matches AfterCommit::Done(end) && end == Disposition::Failure(e),
            None => match plan.transmit {
                Ok(request) => next matches AfterCommit::Push(r) && r == request,
                Err(w) => next matches AfterCommit::Done(Disposition::Success { warnings })
                    && warnings@ == seq![w],
            },
        },
{
    match committed {
        Some(e) => AfterCommit::Done(Disposition::Failure(e)),
        None => match plan.transmit {
            Ok(request) => AfterCommit::Push(request),
            Err(w) => AfterCommit::Done(success(Some(w))),
        },
    }
}

/// How a publication ends after its push, from what became of the push: a
/// failed push is a warning, since the commit stands.
pub fn after_push(pushed: Option<SyncError>) -> (end: Disposition)
    ensures
        match pushed {
            Some(w) => end matches Disposition::Success { warnings } && warnings@ == seq![w],
            None => end matches Disposition::Success { warnings } && warnings@.len() == 0,
        },
{
    success(pushed)
}

} // verus!
