//! Refreshing: fetch, fast-forward where that is possible, then reconcile.

use vstd::prelude::*;
use crate::engine::apply::{described, diagnostics_of, ApplyReport};
use crate::error::{Disposition, ErrorKind, SyncError};
use crate::git::repository::{pull_step, Fetched, GitRepository, PullStep};
use crate::schema::TeamConfig;

verus! {

/// Decides how a pull ends, from what became of the fetch.
///
/// A fetch that failed fails the pull with the fetch's own failure; after a
/// fetch that succeeded the pull ends as [`GitRepository::pull`] says. A
/// reconciliation run follows in either case.
pub fn pull(repo: &GitRepository, fetched: Result<Fetched, SyncError>) -> (step: Result<
    PullStep,
    SyncError,
>)
    ensures
        match fetched {
            Err(cause) => step == Err::<PullStep, SyncError>(cause),
            Ok(f) => match step {
                Ok(s) => pull_step(repo.branch@, f.tip@, f.up_to_date, f.fast_forward) == Some(s@),
                Err(e) => e.kind == ErrorKind::RepositoryFailure && e.context@ == f.tip@ && pull_step(
                    repo.branch@,
                    f.tip@,
                    f.up_to_date,
                    f.fast_forward,
                ) is None,
            },
        },
{
    match fetched {
        Err(cause) => Err(cause),
        Ok(f) => repo.pull(&f),
    }
}

/// How a refresh ended, from what became of the pull and from the report of
/// the reconciliation run that followed: a failed pull is a failure; after a
/// pull that succeeded, the problems of the run are warnings.
pub fn conclude(pulled: Option<SyncError>, report: &ApplyReport, config: &TeamConfig) -> (end:
    Disposition)
    ensures
        match pulled {
            Some(e) => end == Disposition::Failure(e),
            None => end matches Disposition::Success { warnings } && described(warnings@)
                == diagnostics_of(report.outcomes@, config.entries()),
        },
{
    match pulled {
        Some(e) => Disposition::Failure(e),
        None => Disposition::Success { warnings: report.diagnostics(config) },
    }
}

} // verus!
