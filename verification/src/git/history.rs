//! A model of the local history, and what the requests of the repository layer
//! do to it when they are carried out.
//!
//! The history is a set of commits, each with its parents and its message,
//! and a head. Carrying out a commit request adds one commit under a fresh
//! identifier and moves the head to it; carrying out a fast-forward moves the
//! head; nothing ever takes a commit away.

use vstd::prelude::*;
use crate::git::repository::{
    commit_on,
    pull_step,
    revert_message,
    CommitRequestView,
    CommitView,
    PullStepView,
    StoreView,
};

verus! {

/// A commit of the history.
pub struct Commit {
    pub parents: Seq<Seq<char>>,
    pub message: Seq<char>,
}

/// The local history.
pub struct History {
    /// The commits, by identifier.
    pub commits: Map<Seq<char>, Commit>,
    /// The commit the current branch points to, or `None` before the first commit.
    pub head: Option<Seq<char>>,
}

impl History {
    /// Whether the head and every parent named by a commit are in the history.
    pub open spec fn wf(self) -> bool {
        &&& self.head matches Some(h) ==> self.commits.dom().contains(h)
        &&& forall|id: Seq<char>, i: int|
            self.commits.dom().contains(id) && 0 <= i < self.commits[id].parents.len()
                ==> self.commits.dom().contains(#[trigger] self.commits[id].parents[i])
    }

    /// Whether a snapshot of the store shows this history's head.
    pub open spec fn shown_by(self, store: StoreView) -> bool {
        match (self.head, store.head) {
            (Some(h), Some(c)) => c.id == h,
            (None, None) => true,
            _ => false,
        }
    }

    /// The history after `request` has been carried out and the new commit has
    /// got the identifier `id`.
    pub open spec fn committed(self, request: CommitRequestView, id: Seq<char>) -> History {
        History {
            commits: self.commits.insert(
                id,
                Commit { parents: request.parents, message: request.message },
            ),
            head: Some(id),
        }
    }

    /// The history after a pull has ended with `step`; a pull that fails does
    /// nothing.
    pub open spec fn pulled(self, step: Option<PullStepView>) -> History {
        match step {
            Some(PullStepView::FastForward { reference, target, note }) => History {
                commits: self.commits,
                head: Some(target),
            },
            _ => self,
        }
    }

    /// The first parent of a commit, where it has one.
    pub open spec fn first_parent(self, id: Seq<char>) -> Option<Seq<char>> {
        if self.commits[id].parents.len() > 0 {
            Some(self.commits[id].parents[0])
        } else {
            None
        }
    }

    /// At most `limit` commits, newest first: `from` and then its line of first parents.
    pub open spec fn walk_from(self, from: Option<Seq<char>>, limit: nat) -> Seq<Seq<char>>
        decreases limit,
    {
        match from {
            Some(id) if limit > 0 && self.commits.dom().contains(id) => seq![id] + self.walk_from(
                self.first_parent(id),
                (limit - 1) as nat,
            ),
            _ => Seq::empty(),
        }
    }

    /// The newest `limit` commits of the current branch, newest first.
    pub open spec fn newest(self, limit: nat) -> Seq<Seq<char>> {
        self.walk_from(self.head, limit)
    }

    /// Whether `to` is reached from `from` by following parents `steps` times.
    pub open spec fn descends(self, from: Seq<char>, to: Seq<char>, steps: nat) -> bool
        decreases steps,
    {
        if steps == 0 {
            from == to
        } else {
            self.commits.dom().contains(from) && exists|i: int|
                0 <= i < self.commits[from].parents.len() && self.descends(
                    #[trigger] self.commits[from].parents[i],
                    to,
                    (steps - 1) as nat,
                )
        }
    }

    /// Whether the history of `from` contains `to`.
    pub open spec fn contains(self, from: Seq<char>, to: Seq<char>) -> bool {
        exists|steps: nat| self.descends(from, to, steps)
    }

    /// Whether local history already contains the commit `tip`.
    pub open spec fn up_to_date(self, tip: Seq<char>) -> bool {
        self.head matches Some(local) && self.contains(local, tip)
    }

    /// Whether `tip` is a descendant of the local head.
    pub open spec fn fast_forward(self, tip: Seq<char>) -> bool {
        self.head matches Some(local) && self.contains(tip, local)
    }
}

/// The walk from a commit of the old history is the same after a commit has
/// been added.
pub proof fn lemma_walk_kept(
    history: History,
    request: CommitRequestView,
    id: Seq<char>,
    from: Option<Seq<char>>,
    limit: nat,
)
    requires
        history.wf(),
        !history.commits.dom().contains(id),
        from matches Some(f) ==> history.commits.dom().contains(f),
    ensures
        history.committed(request, id).walk_from(from, limit) == history.walk_from(from, limit),
    decreases limit,
{
    if from is Some && limit > 0 {
        let f = from->0;
        lemma_walk_kept(history, request, id, history.first_parent(f), (limit - 1) as nat);
    }
}

/// Commit monotonicity: once the request of `commit_all` has been carried out,
/// the newest commit is the new one, its message is the one given, and its
/// parent, if any, is the prior head.
pub proof fn lemma_commit_is_newest(
    history: History,
    store: StoreView,
    message: Seq<char>,
    id: Seq<char>,
)
    requires
        history.wf(),
        history.shown_by(store),
        !history.commits.dom().contains(id),
    ensures
        ({
            let after = history.committed(commit_on(store.head, message), id);
            &&& after.wf()
            &&& after.newest(1) == seq![id]
            &&& after.commits[id].message == message
            &&& after.commits[id].parents == match history.head {
                Some(prior) => seq![prior],
                None => Seq::empty(),
            }
        }),
{
    let request = commit_on(store.head, message);
    let after = history.committed(request, id);
    assert(after.walk_from(after.first_parent(id), 0) =~= Seq::empty());
}

/// A revert makes forward history: once the request of `revert` has been
/// carried out, exactly one commit has been added, every earlier commit is
/// still there and unchanged, and the history shows the new commit followed by
/// all that it showed before.
pub proof fn lemma_revert_appends(
    history: History,
    store: StoreView,
    reverted: CommitView,
    id: Seq<char>,
    limit: nat,
)
    requires
        history.wf(),
        history.shown_by(store),
        history.commits.dom().contains(reverted.id),
        !history.commits.dom().contains(id),
    ensures
        ({
            let after = history.committed(
                commit_on(store.head, revert_message(reverted.summary)),
                id,
            );
            &&& after.commits.dom() == history.commits.dom().insert(id)
            &&& forall|c: Seq<char>| #[trigger]
                history.commits.dom().contains(c) ==> after.commits[c] == history.commits[c]
            &&& after.commits[reverted.id] == history.commits[reverted.id]
            &&& after.commits[id].message == revert_message(reverted.summary)
            &&& after.newest(limit + 1) == seq![id] + history.newest(limit)
        }),
{
    let request = commit_on(store.head, revert_message(reverted.summary));
    let after = history.committed(request, id);
    lemma_walk_kept(history, request, id, history.head, limit);
}

/// Fast-forward pull: where the local head is a strict ancestor of the fetched
/// commit, the pull moves the head to the fetched commit and keeps every
/// commit; where neither contains the other, the pull fails and the history
/// is as before.
pub proof fn lemma_pull(history: History, branch: Seq<char>, local: Seq<char>, tip: Seq<char>)
    requires
        history.head == Some(local),
    ensures
        ({
            let step = pull_step(
                branch,
                tip,
                history.up_to_date(tip),
                history.fast_forward(tip),
            );
            &&& history.contains(tip, local) && !history.contains(local, tip) ==> {
                &&& step matches Some(PullStepView::FastForward { reference, target, note })
                &&& history.pulled(step).head == Some(tip)
                &&& history.pulled(step).commits == history.commits
            }
            &&& !history.contains(tip, local) && !history.contains(local, tip) ==> {
                &&& step is None
                &&& history.pulled(step) == history
            }
        }),
{
}

} // verus!
