//! The unattended daemon: what to do about each batch of filesystem events.

use vstd::prelude::*;
use crate::context::Environment;
use crate::engine::push::{publish, PushPlan};
use crate::error::{ErrorKind, SyncError};
use crate::git::repository::{GitRepository, StoreProbe};
use crate::paths::{contains_component, has_component};

verus! {

/// The quiescence window, in seconds, over which bursts of events are
/// coalesced into one batch.
pub fn debounce_seconds() -> (seconds: u64)
    ensures
        seconds == 2,
{
    2
}

/// Whether `path` lies inside the store's own metadata.
pub open spec fn internal(path: Seq<char>) -> bool {
    has_component(path, ".git"@)
}

/// Whether a batch of events on `paths` calls for a synchronisation: at least
/// one of the paths lies outside the store's own metadata.
pub open spec fn relevant(paths: Seq<String>) -> bool {
    exists|i: int| 0 <= i < paths.len() && !internal(#[trigger] paths[i]@)
}

/// Tells whether `path` lies inside the store's own metadata.
pub fn is_internal(path: &str) -> (inside: bool)
    ensures
        inside == internal(path@),
{
    contains_component(path, ".git")
}

/// Tells whether a batch of events on `paths` calls for a synchronisation.
pub fn has_relevant_changes(paths: &Vec<String>) -> (any: bool)
    ensures
        any == relevant(paths@),
{
    let mut i: usize = 0;
    while i < paths.len()
        invariant
            i <= paths.len(),
            forall|j: int| 0 <= j < i ==> internal(#[trigger] paths@[j]@),
        decreases paths.len() - i,
    {
        if !is_internal(paths[i].as_str()) {
            return true;
        }
        i += 1;
    }
    false
}

/// What the daemon watches, and with which store.
#[derive(Clone, Debug, PartialEq, Eq)]
pub struct Watch {
    pub repo: GitRepository,
    /// The quiescence window in seconds.
    pub debounce: u64,
}

/// Prepares the daemon. `present` says whether the managed directory is
/// there, `probe` what was found of its store.
///
/// Fails with `NotInitialized`, naming the managed directory, where the
/// directory or its store is missing, and with `RepositoryFailure`, giving the
/// reason, where the store's metadata is corrupt.
pub fn start(env: &Environment, present: bool, probe: StoreProbe, configured: &str) -> (watch:
    Result<Watch, SyncError>)
    ensures
        match probe {
            _ if !present => watch matches Err(e) && e.kind == ErrorKind::NotInitialized
                && e.context@ == env@.config_dir,
            StoreProbe::Absent => watch matches Err(e) && e.kind == ErrorKind::NotInitialized
                && e.context@ == env@.config_dir,
            StoreProbe::Corrupt(reason) => watch matches Err(e) && e.kind
                == ErrorKind::RepositoryFailure && e.context@ == reason@,
            StoreProbe::Present { head, branch, has_origin } => watch matches Ok(w) && w.debounce
                == 2 && w.repo.head == head && w.repo.has_origin == has_origin && w.repo.branch@
                == match branch {
                Some(b) => b@,
                None => configured@,
            },
        },
{
    if !present {
        return Err(SyncError::new(ErrorKind::NotInitialized, env.config_dir.as_str()));
    }
    match GitRepository::open(probe, configured) {
        Ok(repo) => Ok(Watch { repo, debounce: debounce_seconds() }),
        Err(e) => match e.kind {
            ErrorKind::NotInitialized => Err(
                SyncError::new(ErrorKind::NotInitialized, env.config_dir.as_str()),
            ),
            _ => Err(e),
        },
    }
}

/// What came from the watcher.
#[derive(Clone, Debug, PartialEq, Eq)]
pub enum WatchEvent {
    /// A coalesced batch of changes, by path.
    Changed(Vec<String>),
    /// The watcher reported an error.
    Failed(String),
}

/// What the daemon does about an event. It goes on watching in every case.
#[derive(Clone, Debug, PartialEq, Eq)]
pub enum Reaction {
    /// Nothing: the batch concerned the store's own metadata only.
    Ignore,
    /// Commit and push (see [`sync_changes`]).
    Sync,
    /// Tell the operator what the watcher reported.
    Report(String),
}

/// Decides what to do about an event.
pub fn on_event(event: &WatchEvent) -> (reaction: Reaction)
    ensures
        match event {
            WatchEvent::Changed(paths) => reaction == if relevant(paths@) {
                Reaction::Sync
            } else {
                Reaction::Ignore
            },
            WatchEvent::Failed(reason) => reaction matches Reaction::Report(text) && text@
                == reason@,
        },
{
    match event {
        WatchEvent::Changed(paths) => {
            if has_relevant_changes(paths) {
                Reaction::Sync
            } else {
                Reaction::Ignore
            }
        },
        WatchEvent::Failed(reason) => Reaction::Report(reason.clone()),
    }
}

/// Plans one synchronisation cycle: a commit of everything, then a push.
pub fn sync_changes(repo: &GitRepository) -> (plan: PushPlan)
    ensures
        plan.is_for(repo, "Auto-sync: Detected changes"@),
{
    publish(repo, "Auto-sync: Detected changes")
}

} // verus!
