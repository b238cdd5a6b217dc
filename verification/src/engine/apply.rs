//! Reconciliation: making the filesystem match the declared entries.
//!
//! Entries are handled one at a time, in declaration order. For each entry the
//! caller examines the filesystem, [`apply`] decides from what was found, and
//! the caller carries the decision out. A problem with one entry never stops
//! the run: it is recorded, and the run goes on.

use vstd::prelude::*;
use crate::context::{EnvView, Environment};
use crate::error::{ErrorKind, SyncError};
use crate::fs::change::{is_owner_only, owner_only, Action, ActionView, OWNER_ONLY};
use crate::fs::symlink::{create_symlink, link_step, LinkStep, LinkStepView, PathState, PathStateView};
use crate::schema::{EntryView, FileConfig, FileType, RoleScope, ScopeView, TeamConfig};
use crate::secret::cipher::{decrypt, plaintext_of};
use crate::secret::keys::{identity_in, load_key};
use crate::state::LocalState;
use crate::text::texts;

verus! {

/// What the caller found when it examined the filesystem for one entry.
///
/// The last four fields matter for secrets only.
#[derive(Clone, Debug, PartialEq, Eq)]
pub struct Probe {
    /// The resolved location of the entry's artifact in the managed directory,
    /// or `None` where the artifact does not exist.
    pub source: Option<String>,
    /// What occupies the entry's destination.
    pub destination: PathState,
    /// The bytes of the artifact, where it could be read.
    pub ciphertext: Option<Vec<u8>>,
    /// The bytes at the destination, where it is a regular file.
    pub current: Option<Vec<u8>>,
    /// The mode of the destination, where it is a regular file.
    pub current_mode: Option<u32>,
    /// The text of the persisted identity, where there is one.
    pub key: Option<String>,
}

/// The mathematical value of a [`Probe`].
pub struct ProbeView {
    pub source: Option<Seq<char>>,
    pub destination: PathStateView,
    pub ciphertext: Option<Seq<u8>>,
    pub current: Option<Seq<u8>>,
    pub current_mode: Option<u32>,
    pub key: Option<Seq<char>>,
}

impl View for Probe {
    type V = ProbeView;

    open spec fn view(&self) -> ProbeView {
        ProbeView {
            source: match self.source {
                Some(s) => Some(s@),
                None => None,
            },
            destination: self.destination@,
            ciphertext: match self.ciphertext {
                Some(c) => Some(c@),
                None => None,
            },
            current: match self.current {
                Some(c) => Some(c@),
                None => None,
            },
            current_mode: self.current_mode,
            key: match self.key {
                Some(k) => Some(k@),
                None => None,
            },
        }
    }
}

/// Why an entry could not be brought into place.
#[derive(Clone, Copy, Debug, PartialEq, Eq, Structural)]
pub enum Problem {
    /// The entry's artifact is not in the managed directory.
    SourceMissing,
    /// The destination is occupied by something other than the expected link or file.
    Conflict,
    /// No identity has been persisted on this machine.
    KeyMissing,
    /// The persisted identity cannot be parsed.
    KeyCorrupt,
    /// The ciphertext is malformed or was sealed for another identity.
    DecryptionFailed,
    /// The filesystem refused the change.
    IoFailure,
}

impl Problem {
    /// The class of failure this problem belongs to.
    pub open spec fn kind_spec(self) -> ErrorKind {
        match self {
            Problem::SourceMissing => ErrorKind::IoFailure,
            Problem::Conflict => ErrorKind::Conflict,
            Problem::KeyMissing => ErrorKind::NotInitialized,
            Problem::KeyCorrupt => ErrorKind::CryptoFailure,
            Problem::DecryptionFailed => ErrorKind::CryptoFailure,
            Problem::IoFailure => ErrorKind::IoFailure,
        }
    }

    /// The class of failure this problem belongs to.
    pub fn kind(&self) -> (kind: ErrorKind)
        ensures
            kind == self.kind_spec(),
    {
        match self {
            Problem::SourceMissing => ErrorKind::IoFailure,
            Problem::Conflict => ErrorKind::Conflict,
            Problem::KeyMissing => ErrorKind::NotInitialized,
            Problem::KeyCorrupt => ErrorKind::CryptoFailure,
            Problem::DecryptionFailed => ErrorKind::CryptoFailure,
            Problem::IoFailure => ErrorKind::IoFailure,
        }
    }
}

/// How one entry fared.
#[derive(Clone, Copy, Debug, PartialEq, Eq, Structural)]
pub enum Outcome {
    /// The entry is scoped to roles this machine does not hold.
    Skipped,
    /// The destination already was as declared.
    Unchanged,
    /// A symbolic link is to be created.
    Linked,
    /// The decrypted content is to be written.
    Materialized,
    /// The entry could not be brought into place; nothing is touched.
    Failed(Problem),
}

/// The decision on one entry: how it fares, and what is to be done.
#[derive(Clone, Debug, PartialEq, Eq)]
pub struct Step {
    pub outcome: Outcome,
    pub action: Action,
}

/// The mathematical value of a [`Step`].
pub struct StepView {
    pub outcome: Outcome,
    pub action: ActionView,
}

impl View for Step {
    type V = StepView;

    open spec fn view(&self) -> StepView {
        StepView { outcome: self.outcome, action: self.action@ }
    }
}

/// Whether an entry with scope `scope` applies to a machine that holds the
/// roles `held`: always where the scope is universal, and otherwise where the
/// machine holds at least one of the named roles.
pub open spec fn applies(scope: ScopeView, held: Seq<Seq<char>>) -> bool {
    match scope {
        ScopeView::Universal => true,
        ScopeView::RoleRestricted(names) => holds_any(names, held),
    }
}

/// Whether at least one of `names` is among `held`.
pub open spec fn holds_any(names: Seq<Seq<char>>, held: Seq<Seq<char>>) -> bool {
    exists|i: int| #![trigger names[i]] 0 <= i < names.len() && held.contains(names[i])
}

/// A step that records a problem and touches nothing.
pub open spec fn failed(problem: Problem) -> StepView {
    StepView { outcome: Outcome::Failed(problem), action: ActionView::Nothing }
}

/// The decision on a plain file or directory.
pub open spec fn decide_link(entry: EntryView, env: EnvView, probe: ProbeView) -> StepView {
    match probe.source {
        None => failed(Problem::SourceMissing),
        Some(target) => match link_step(
            env.source_path(entry),
            env.destination_path(entry),
            target,
            probe.destination,
        ) {
            Some(LinkStepView::AlreadyLinked) => StepView {
                outcome: Outcome::Unchanged,
                action: ActionView::Nothing,
            },
            Some(LinkStepView::Create { original, link }) => StepView {
                outcome: Outcome::Linked,
                action: ActionView::Link { original, link },
            },
            None => failed(Problem::Conflict),
        },
    }
}

/// The decision on a secret whose opened content is `plain`: it is written
/// wherever its destination is free or is a regular file that does not hold
/// that content with owner-only permissions already; any other occupant is a
/// conflict.
pub open spec fn decide_opened(entry: EntryView, env: EnvView, probe: ProbeView, plain: Seq<u8>) -> StepView {
    let write = StepView {
        outcome: Outcome::Materialized,
        action: ActionView::Write {
            path: env.destination_path(entry),
            content: plain,
            mode: OWNER_ONLY,
        },
    };
    match probe.destination {
        PathStateView::Missing => write,
        PathStateView::File => if probe.current == Some(plain) && owner_only(probe.current_mode) {
            StepView { outcome: Outcome::Unchanged, action: ActionView::Nothing }
        } else {
            write
        },
        _ => failed(Problem::Conflict),
    }
}

/// The decision on a secret: a problem where the identity is missing or
/// corrupt, the ciphertext is missing or it does not open; otherwise as
/// [`decide_opened`] says for the opened content.
pub open spec fn decide_secret(entry: EntryView, env: EnvView, probe: ProbeView) -> StepView {
    match identity_in(probe.key) {
        Err(ErrorKind::NotInitialized) => failed(Problem::KeyMissing),
        Err(_) => failed(Problem::KeyCorrupt),
        Ok(identity) => match probe.ciphertext {
            None => failed(Problem::SourceMissing),
            Some(sealed) => match plaintext_of(sealed, identity) {
                None => failed(Problem::DecryptionFailed),
                Some(plain) => decide_opened(entry, env, probe, plain),
            },
        },
    }
}

/// The decision on one entry, from the roles this machine holds and what was
/// found on the filesystem.
pub open spec fn decide(entry: EntryView, held: Seq<Seq<char>>, env: EnvView, probe: ProbeView) -> StepView {
    if !applies(entry.roles, held) {
        StepView { outcome: Outcome::Skipped, action: ActionView::Nothing }
    } else if entry.file_type == FileType::Secret {
        decide_secret(entry, env, probe)
    } else {
        decide_link(entry, env, probe)
    }
}

/// Tells whether `entry` applies to the machine whose state is `state`.
pub fn applies_to(entry: &FileConfig, state: &LocalState) -> (applicable: bool)
    ensures
        applicable == applies(entry@.roles, state@),
{
    match &entry.roles {
        RoleScope::Universal => true,
        RoleScope::RoleRestricted(names) => {
            let mut i: usize = 0;
            while i < names.len()
                invariant
                    i <= names.len(),
                    entry@.roles == ScopeView::RoleRestricted(texts(names@)),
                    forall|j: int| 0 <= j < i ==> !state@.contains(#[trigger] texts(names@)[j]),
                decreases names.len() - i,
            {
                if state.has_role(names[i].as_str()) {
                    assert(state@.contains(texts(names@)[i as int]));
                    return true;
                }
                i += 1;
            }
            false
        },
    }
}

/// Tells whether two byte strings are equal.
fn same_bytes(a: &Vec<u8>, b: &Vec<u8>) -> (same: bool)
    ensures
        same == (a@ == b@),
{
    if a.len() != b.len() {
        return false;
    }
    let mut i: usize = 0;
    while i < a.len()
        invariant
            i <= a.len(),
            a.len() == b.len(),
            forall|j: int| 0 <= j < i ==> a@[j] == b@[j],
        decreases a.len() - i,
    {
        if a[i] != b[i] {
            return false;
        }
        i += 1;
    }
    assert(a@ =~= b@);
    true
}

fn plan_link(entry: &FileConfig, env: &Environment, probe: &Probe) -> (step: Step)
    ensures
        step@ == decide_link(entry@, env@, probe@),
{
    match &probe.source {
        None => Step { outcome: Outcome::Failed(Problem::SourceMissing), action: Action::Nothing },
        Some(target) => {
            let original = env.source_path(entry);
            let link = env.destination_path(entry);
            match create_symlink(
                original.as_str(),
                link.as_str(),
                target.as_str(),
                &probe.destination,
            ) {
                Ok(LinkStep::AlreadyLinked) => Step {
                    outcome: Outcome::Unchanged,
                    action: Action::Nothing,
                },
                Ok(LinkStep::Create { original, link }) => Step {
                    outcome: Outcome::Linked,
                    action: Action::Link { original, link },
                },
                Err(_) => Step {
                    outcome: Outcome::Failed(Problem::Conflict),
                    action: Action::Nothing,
                },
            }
        },
    }
}

fn plan_secret(entry: &FileConfig, env: &Environment, probe: &Probe) -> (step: Step)
    ensures
        step@ == decide_secret(entry@, env@, probe@),
{
    let key = match &probe.key {
        Some(k) => k,
        None => {
            return Step { outcome: Outcome::Failed(Problem::KeyMissing), action: Action::Nothing };
        },
    };
    let identity = match load_key(Some(key.as_str())) {
        Ok(identity) => identity,
        Err(_) => {
            return Step { outcome: Outcome::Failed(Problem::KeyCorrupt), action: Action::Nothing };
        },
    };
    let sealed = match &probe.ciphertext {
        Some(c) => c,
        None => {
            return Step {
                outcome: Outcome::Failed(Problem::SourceMissing),
                action: Action::Nothing,
            };
        },
    };
    let plain = match decrypt(sealed.as_slice(), &identity) {
        Ok(p) => p,
        Err(_) => {
            return Step {
                outcome: Outcome::Failed(Problem::DecryptionFailed),
                action: Action::Nothing,
            };
        },
    };
    materialize(entry, env, probe, plain)
}

/// Decides on a secret whose content has been opened: `plain` is written to
/// the destination unless it is there already, with owner-only permissions; a
/// destination occupied by anything but a regular file is a conflict.
pub fn materialize(entry: &FileConfig, env: &Environment, probe: &Probe, plain: Vec<u8>) -> (step:
    Step)
    ensures
        step@ == decide_opened(entry@, env@, probe@, plain@),
{
    let up_to_date = match (&probe.destination, &probe.current) {
        (PathState::File, Some(current)) => same_bytes(current, &plain) && is_owner_only(
            probe.current_mode,
        ),
        _ => false,
    };
    match &probe.destination {
        PathState::Missing | PathState::File => {
            if up_to_date {
                Step { outcome: Outcome::Unchanged, action: Action::Nothing }
            } else {
                Step {
                    outcome: Outcome::Materialized,
                    action: Action::Write {
                        path: env.destination_path(entry),
                        content: plain,
                        mode: OWNER_ONLY,
                    },
                }
            }
        },
        _ => Step { outcome: Outcome::Failed(Problem::Conflict), action: Action::Nothing },
    }
}

/// Decides on one entry, from the roles this machine holds and from what was
/// found on the filesystem.
pub fn plan_entry(entry: &FileConfig, state: &LocalState, env: &Environment, probe: &Probe) -> (step:
    Step)
    ensures
        step@ == decide(entry@, state@, env@, probe@),
{
    if !applies_to(entry, state) {
        Step { outcome: Outcome::Skipped, action: Action::Nothing }
    } else {
        match entry.file_type {
            FileType::Secret => plan_secret(entry, env, probe),
            _ => plan_link(entry, env, probe),
        }
    }
}

/// How many of `outcomes` are problems.
pub open spec fn problems(outcomes: Seq<Outcome>) -> nat
    decreases outcomes.len(),
{
    if outcomes.len() == 0 {
        0
    } else {
        problems(outcomes.drop_last()) + if outcomes.last() is Failed {
            1nat
        } else {
            0nat
        }
    }
}

/// The class and the text of each of a list of failures, in order.
pub open spec fn described(errors: Seq<SyncError>) -> Seq<(ErrorKind, Seq<char>)> {
    Seq::new(errors.len(), |i: int| (errors[i].kind, errors[i].context@))
}

/// The problems among `outcomes`, in order, each with its class and the
/// destination of the entry it belongs to.
pub open spec fn diagnostics_of(outcomes: Seq<Outcome>, entries: Seq<EntryView>) -> Seq<
    (ErrorKind, Seq<char>),
>
    decreases outcomes.len(),
{
    if outcomes.len() == 0 {
        Seq::empty()
    } else {
        let before = diagnostics_of(outcomes.drop_last(), entries);
        let i = outcomes.len() - 1;
        match outcomes.last() {
            Outcome::Failed(problem) if i < entries.len() => before.push(
                (problem.kind_spec(), entries[i].destination),
            ),
            _ => before,
        }
    }
}

/// The result of a run as a whole.
#[derive(Clone, Copy, Debug, PartialEq, Eq, Structural)]
pub enum Verdict {
    /// Every entry is in place or was skipped on purpose.
    FullyApplied,
    /// The run went through, and this many entries had a problem.
    AppliedWithProblems(usize),
}

/// The outcomes of the entries handled so far, in declaration order.
#[derive(Clone, Debug, PartialEq, Eq)]
pub struct ApplyReport {
    pub outcomes: Vec<Outcome>,
}

impl ApplyReport {
    /// The report of a run that has not handled any entry yet.
    pub fn new() -> (report: ApplyReport)
        ensures
            report.outcomes@ == Seq::<Outcome>::empty(),
    {
        ApplyReport { outcomes: Vec::new() }
    }

    /// Counts the entries that had a problem.
    pub fn problem_count(&self) -> (count: usize)
        ensures
            count == problems(self.outcomes@),
    {
        let mut count: usize = 0;
        let mut i: usize = 0;
        while i < self.outcomes.len()
            invariant
                i <= self.outcomes.len(),
                count <= i,
                count == problems(self.outcomes@.take(i as int)),
            decreases self.outcomes.len() - i,
        {
            proof {
                let next = self.outcomes@.take(i + 1);
                assert(next.drop_last() =~= self.outcomes@.take(i as int));
            }
            match self.outcomes[i] {
                Outcome::Failed(_) => {
                    count += 1;
                },
                _ => {},
            }
            i += 1;
        }
        assert(self.outcomes@.take(i as int) =~= self.outcomes@);
        count
    }

    /// Tells a run without problems from one with problems, and says how many.
    pub fn verdict(&self) -> (verdict: Verdict)
        ensures
            verdict == if problems(self.outcomes@) == 0 {
                Verdict::FullyApplied
            } else {
                Verdict::AppliedWithProblems(problems(self.outcomes@) as usize)
            },
    {
        let count = self.problem_count();
        if count == 0 {
            Verdict::FullyApplied
        } else {
            Verdict::AppliedWithProblems(count)
        }
    }

    /// Lists the problems of the run as failures, in declaration order: each
    /// has the class of its problem and names the destination of its entry.
    pub fn diagnostics(&self, config: &TeamConfig) -> (found: Vec<SyncError>)
        ensures
            described(found@) == diagnostics_of(self.outcomes@, config.entries()),
    {
        let mut found: Vec<SyncError> = Vec::new();
        let mut i: usize = 0;
        while i < self.outcomes.len()
            invariant
                i <= self.outcomes.len(),
                described(found@) == diagnostics_of(self.outcomes@.take(i as int), config.entries()),
            decreases self.outcomes.len() - i,
        {
            proof {
                let next = self.outcomes@.take(i + 1);
                assert(next.drop_last() =~= self.outcomes@.take(i as int));
            }
            match self.outcomes[i] {
                Outcome::Failed(problem) => {
                    if i < config.files.len() {
                        let failure = SyncError::new(
                            problem.kind(),
                            config.files[i].destination.as_str(),
                        );
                        found.push(failure);
                    }
                },
                _ => {},
            }
            i += 1;
        }
        assert(self.outcomes@.take(i as int) =~= self.outcomes@);
        found
    }

    /// Records that the filesystem refused the change decided for the entry
    /// handled last: its outcome becomes an `IoFailure` problem.
    pub fn fail_last(&mut self)
        ensures
            final(self).outcomes@ == if old(self).outcomes@.len() == 0 {
                old(self).outcomes@
            } else {
                old(self).outcomes@.update(
                    old(self).outcomes@.len() - 1,
                    Outcome::Failed(Problem::IoFailure),
                )
            },
    {
        let n = self.outcomes.len();
        if n > 0 {
            self.outcomes.set(n - 1, Outcome::Failed(Problem::IoFailure));
        }
    }
}

/// What the caller is to do next in a run.
#[derive(Clone, Debug, PartialEq, Eq)]
pub enum Request {
    /// Every entry has been handled.
    Finished,
    /// The next entry does not apply to this machine: nothing needs examining.
    Skip,
    /// Examine the filesystem for the next entry: its artifact at `source` and
    /// whatever is at `destination`; for a secret, their contents and the
    /// persisted identity as well.
    Examine { source: String, destination: String, secret: bool },
}

/// The mathematical value of a [`Request`].
pub enum RequestView {
    Finished,
    Skip,
    Examine { source: Seq<char>, destination: Seq<char>, secret: bool },
}

impl View for Request {
    type V = RequestView;

    open spec fn view(&self) -> RequestView {
        match self {
            Request::Finished => RequestView::Finished,
            Request::Skip => RequestView::Skip,
            Request::Examine { source, destination, secret } => RequestView::Examine {
                source: source@,
                destination: destination@,
                secret: *secret,
            },
        }
    }
}

/// What is to be examined after `done` entries have been handled.
pub open spec fn request_after(
    entries: Seq<EntryView>,
    held: Seq<Seq<char>>,
    env: EnvView,
    done: int,
) -> RequestView {
    if done < 0 || done >= entries.len() {
        RequestView::Finished
    } else if !applies(entries[done].roles, held) {
        RequestView::Skip
    } else {
        RequestView::Examine {
            source: env.source_path(entries[done]),
            destination: env.destination_path(entries[done]),
            secret: entries[done].file_type == FileType::Secret,
        }
    }
}

/// Says what the caller is to examine for the entry that is next in the run.
pub fn next_request(
    config: &TeamConfig,
    state: &LocalState,
    env: &Environment,
    report: &ApplyReport,
) -> (request: Request)
    ensures
        request@ == request_after(config.entries(), state@, env@, report.outcomes@.len() as int),
{
    let done = report.outcomes.len();
    if done >= config.files.len() {
        return Request::Finished;
    }
    let entry = &config.files[done];
    if !applies_to(entry, state) {
        Request::Skip
    } else {
        let secret = match entry.file_type {
            FileType::Secret => true,
            _ => false,
        };
        Request::Examine {
            source: env.source_path(entry),
            destination: env.destination_path(entry),
            secret,
        }
    }
}

/// Handles the next entry of the run: decides from `probe` how it fares,
/// records that in `report` and returns the change the caller is to make.
///
/// The next entry is the one whose position is the number of outcomes in
/// `report`. Once every entry has been handled, nothing is recorded and
/// nothing is to be done.
pub fn apply(
    config: &TeamConfig,
    state: &LocalState,
    env: &Environment,
    report: &mut ApplyReport,
    probe: &Probe,
) -> (action: Action)
    ensures
        old(report).outcomes@.len() < config.files@.len() ==> {
            let step = decide(
                config.entries()[old(report).outcomes@.len() as int],
                state@,
                env@,
                probe@,
            );
            &&& final(report).outcomes@ == old(report).outcomes@.push(step.outcome)
            &&& action@ == step.action
        },
        old(report).outcomes@.len() >= config.files@.len() ==> {
            &&& final(report).outcomes@ == old(report).outcomes@
            &&& action@ == ActionView::Nothing
        },
{
    let done = report.outcomes.len();
    if done >= config.files.len() {
        return Action::Nothing;
    }
    let step = plan_entry(&config.files[done], state, env, probe);
    report.outcomes.push(step.outcome);
    step.action
}

} // verus!
