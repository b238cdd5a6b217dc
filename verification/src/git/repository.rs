//! Commit, push, pull, revert and log, as decisions over a snapshot of the
//! store. The caller reads the snapshot, carries out what is asked, and
//! reports back what the store answered.

use vstd::prelude::*;
use crate::error::{ErrorKind, SyncError};

verus! {

/// What the caller read of one commit.
#[derive(Clone, Debug, PartialEq, Eq)]
pub struct CommitInfo {
    /// The full identifier, in hexadecimal.
    pub id: String,
    /// The commit time, in seconds since the epoch.
    pub time: i64,
    /// The author's name, where it is readable.
    pub author: Option<String>,
    /// The one-line summary of the message, where there is one.
    pub summary: Option<String>,
}

/// The mathematical value of a [`CommitInfo`].
pub struct CommitView {
    pub id: Seq<char>,
    pub time: int,
    pub author: Option<Seq<char>>,
    pub summary: Option<Seq<char>>,
}

impl View for CommitInfo {
    type V = CommitView;

    open spec fn view(&self) -> CommitView {
        CommitView {
            id: self.id@,
            time: self.time as int,
            author: match self.author {
                Some(a) => Some(a@),
                None => None,
            },
            summary: match self.summary {
                Some(s) => Some(s@),
                None => None,
            },
        }
    }
}

/// The views of a list of commits, in order.
pub open spec fn commits(walk: Seq<CommitInfo>) -> Seq<CommitView> {
    Seq::new(walk.len(), |i: int| walk[i]@)
}

/// What was found where the store is expected.
#[derive(Clone, Debug, PartialEq, Eq)]
pub enum StoreProbe {
    /// No version-controlled directory is there.
    Absent,
    /// One is there, and its metadata cannot be read; the text says why.
    Corrupt(String),
    /// One is there.
    Present {
        /// The commit the current branch points to, or `None` before the first commit.
        head: Option<CommitInfo>,
        /// The short name of the current branch, where the store names one.
        branch: Option<String>,
        /// Whether a remote named `origin` is configured.
        has_origin: bool,
    },
}

/// A snapshot of the store, as far as the operations read it.
#[derive(Clone, Debug, PartialEq, Eq)]
pub struct GitRepository {
    /// The commit the current branch points to, or `None` before the first commit.
    pub head: Option<CommitInfo>,
    /// The branch that is committed to and synchronised.
    pub branch: String,
    /// Whether a remote named `origin` is configured.
    pub has_origin: bool,
}

/// The mathematical value of a [`GitRepository`].
pub struct StoreView {
    pub head: Option<CommitView>,
    pub branch: Seq<char>,
    pub has_origin: bool,
}

impl View for GitRepository {
    type V = StoreView;

    open spec fn view(&self) -> StoreView {
        StoreView {
            head: match self.head {
                Some(c) => Some(c@),
                None => None,
            },
            branch: self.branch@,
            has_origin: self.has_origin,
        }
    }
}

/// Who a commit is signed by.
#[derive(Clone, Debug, PartialEq, Eq)]
pub struct Signature {
    pub name: String,
    pub email: String,
}

/// A commit to be written: every addition, modification and deletion that
/// `pathspec` matches is staged, the commit is written, and the reference
/// `update` is moved to it.
#[derive(Clone, Debug, PartialEq, Eq)]
pub struct CommitRequest {
    pub message: String,
    /// The identifiers of the parents: the current head, or none for the first commit.
    pub parents: Vec<String>,
    /// Author and committer alike.
    pub signature: Signature,
    /// What to stage, as a path pattern relative to the tree's root.
    pub pathspec: String,
    /// The reference to move to the new commit.
    pub update: String,
}

/// The mathematical value of a [`CommitRequest`].
pub struct CommitRequestView {
    pub message: Seq<char>,
    pub parents: Seq<Seq<char>>,
    pub signer: Seq<char>,
    pub email: Seq<char>,
    pub pathspec: Seq<char>,
    pub update: Seq<char>,
}

impl View for CommitRequest {
    type V = CommitRequestView;

    open spec fn view(&self) -> CommitRequestView {
        CommitRequestView {
            message: self.message@,
            parents: crate::text::texts(self.parents@),
            signer: self.signature.name@,
            email: self.signature.email@,
            pathspec: self.pathspec@,
            update: self.update@,
        }
    }
}

/// The commit that `commit_all` asks for on a store whose head is `head`:
/// everything under the root is staged, the parent is the head, the signature
/// is the fixed local identity, and the current branch moves to the commit.
pub open spec fn commit_on(head: Option<CommitView>, message: Seq<char>) -> CommitRequestView {
    CommitRequestView {
        message,
        parents: match head {
            Some(c) => seq![c.id],
            None => Seq::empty(),
        },
        signer: "configsync"@,
        email: "configsync@localhost"@,
        pathspec: "*"@,
        update: "HEAD"@,
    }
}

/// A transmission of one branch to a remote.
#[derive(Clone, Debug, PartialEq, Eq)]
pub struct PushRequest {
    pub remote: String,
    pub refspec: String,
}

/// A fetch of one branch from a remote.
#[derive(Clone, Debug, PartialEq, Eq)]
pub struct FetchRequest {
    pub remote: String,
    pub branch: String,
}

/// What a fetch brought, and how it relates to local history.
#[derive(Clone, Debug, PartialEq, Eq)]
pub struct Fetched {
    /// The identifier of the fetched commit.
    pub tip: String,
    /// Whether local history already contains the fetched commit.
    pub up_to_date: bool,
    /// Whether the fetched commit is a descendant of the local head.
    pub fast_forward: bool,
}

/// How a pull ends where it does not fail.
#[derive(Clone, Debug, PartialEq, Eq)]
pub enum PullStep {
    /// Local history already contains what was fetched: nothing to do.
    UpToDate,
    /// Move `reference` to `target`, noting `note` in the reference's log, and
    /// force the working tree to match.
    FastForward { reference: String, target: String, note: String },
}

/// The mathematical value of a [`PullStep`].
pub enum PullStepView {
    UpToDate,
    FastForward { reference: Seq<char>, target: Seq<char>, note: Seq<char> },
}

impl View for PullStep {
    type V = PullStepView;

    open spec fn view(&self) -> PullStepView {
        match self {
            PullStep::UpToDate => PullStepView::UpToDate,
            PullStep::FastForward { reference, target, note } => PullStepView::FastForward {
                reference: reference@,
                target: target@,
                note: note@,
            },
        }
    }
}

/// The full name of a branch's reference.
pub open spec fn branch_reference(branch: Seq<char>) -> Seq<char> {
    "refs/heads/"@ + branch
}

/// How a pull of `tip` into `branch` ends: `None` where the histories have diverged.
pub open spec fn pull_step(branch: Seq<char>, tip: Seq<char>, up_to_date: bool, fast_forward: bool) -> Option<
    PullStepView,
> {
    if up_to_date {
        Some(PullStepView::UpToDate)
    } else if fast_forward {
        Some(
            PullStepView::FastForward {
                reference: branch_reference(branch),
                target: tip,
                note: "Fast-Forward: Setting "@ + branch_reference(branch) + " to id: "@ + tip,
            },
        )
    } else {
        None
    }
}

/// Whether `c` is a hexadecimal digit.
pub open spec fn is_hex(c: char) -> bool {
    ('0' <= c <= '9') || ('a' <= c <= 'f') || ('A' <= c <= 'F')
}

/// Whether `text` can stand for a commit: one to forty hexadecimal digits.
pub open spec fn is_commit_hash(text: Seq<char>) -> bool {
    &&& 1 <= text.len() <= 40
    &&& forall|i: int| 0 <= i < text.len() ==> is_hex(#[trigger] text[i])
}

/// A hexadecimal digit in lower case.
pub open spec fn lower_hex(c: char) -> char {
    if c == 'A' {
        'a'
    } else if c == 'B' {
        'b'
    } else if c == 'C' {
        'c'
    } else if c == 'D' {
        'd'
    } else if c == 'E' {
        'e'
    } else if c == 'F' {
        'f'
    } else {
        c
    }
}

/// The full identifier that a commit hash stands for: its digits in lower case,
/// filled up with zeros to forty digits.
pub open spec fn full_id(text: Seq<char>) -> Seq<char> {
    Seq::new(
        40,
        |i: int|
            if i < text.len() {
                lower_hex(text[i])
            } else {
                '0'
            },
    )
}

/// Parses `text` with `git2::Oid::from_str` and prints the identifier with its
/// `Display`.
///
/// Trusted: parsing succeeds exactly for one to forty hexadecimal digits, and
/// the identifier prints as forty digits in lower case, the given ones first
/// and zeros behind them.
#[verifier::external_body]
fn parse_commit_hash(text: &str) -> (id: Option<String>)
    ensures
        id is Some <==> is_commit_hash(text@),
        id matches Some(full) ==> full@ == full_id(text@),
{
    let id = git2::Oid::from_str(text).ok()?;
    Some(id.to_string())
}

/// The text that `chrono` prints for the moment `seconds` after the epoch, in
/// UTC and in the form `year-month-day hour:minute:second`; `None` where the
/// moment lies outside the range of dates it can hold.
pub uninterp spec fn utc_text(seconds: int) -> Option<Seq<char>>;

/// Builds the moment with `chrono::DateTime::from_timestamp` and prints it with
/// `format("%Y-%m-%d %H:%M:%S")`.
///
/// Trusted: the result is the value that [`utc_text`] names; it depends on
/// `seconds` alone.
#[verifier::external_body]
fn format_utc(seconds: i64) -> (text: Option<String>)
    ensures
        match text {
            Some(t) => utc_text(seconds as int) == Some(t@),
            None => utc_text(seconds as int) is None,
        },
{
    let moment = chrono::DateTime::from_timestamp(seconds, 0)?;
    Some(moment.format("%Y-%m-%d %H:%M:%S").to_string())
}

/// How many commits the history shows where the caller names no limit: ten.
pub fn history_limit() -> (limit: usize)
    ensures
        limit == 10,
{
    10
}

/// One line of the history.
#[derive(Clone, Debug, PartialEq, Eq)]
pub struct LogEntry {
    /// The first seven digits of the identifier.
    pub short_id: String,
    /// The commit time in UTC.
    pub timestamp: String,
    pub author: String,
    pub summary: String,
}

/// The mathematical value of a [`LogEntry`].
pub struct LogEntryView {
    pub short_id: Seq<char>,
    pub timestamp: Seq<char>,
    pub author: Seq<char>,
    pub summary: Seq<char>,
}

impl View for LogEntry {
    type V = LogEntryView;

    open spec fn view(&self) -> LogEntryView {
        LogEntryView {
            short_id: self.short_id@,
            timestamp: self.timestamp@,
            author: self.author@,
            summary: self.summary@,
        }
    }
}

/// The views of a list of history lines, in order.
pub open spec fn log_entries(entries: Seq<LogEntry>) -> Seq<LogEntryView> {
    Seq::new(entries.len(), |i: int| entries[i]@)
}

/// The history line of a commit whose commit time prints as `time`, where it
/// can be printed at all.
pub open spec fn entry_with(commit: CommitView, time: Option<Seq<char>>) -> LogEntryView {
    LogEntryView {
        short_id: if commit.id.len() <= 7 {
            commit.id
        } else {
            commit.id.take(7)
        },
        timestamp: match time {
            Some(t) => t,
            None => "Unknown time"@,
        },
        author: match commit.author {
            Some(a) => a,
            None => "Unknown"@,
        },
        summary: match commit.summary {
            Some(s) => s,
            None => "<no message>"@,
        },
    }
}

/// The history line of a commit.
pub open spec fn entry_of(commit: CommitView) -> LogEntryView {
    entry_with(commit, utc_text(commit.time))
}

/// The first `limit` commits of `walk` as history lines.
pub open spec fn history(walk: Seq<CommitView>, limit: int) -> Seq<LogEntryView> {
    Seq::new(
        if limit < walk.len() {
            limit as nat
        } else {
            walk.len()
        },
        |i: int| entry_of(walk[i]),
    )
}

/// The message of the commit that reverts a commit with the given summary.
pub open spec fn revert_message(summary: Option<Seq<char>>) -> Seq<char> {
    "Revert \""@ + match summary {
        Some(s) => s,
        None => Seq::empty(),
    } + "\""@
}

impl LogEntry {
    /// The history line of `commit`, with the commit time in UTC.
    pub fn of(commit: &CommitInfo) -> (entry: LogEntry)
        ensures
            entry@ == entry_of(commit@),
    {
        LogEntry::with_time(commit, format_utc(commit.time))
    }

    /// The history line of `commit`, given the text of its commit time, or
    /// `None` where the time cannot be printed: the first seven digits of the
    /// identifier, the time, the author and the summary, each with a stand-in
    /// where it is missing.
    pub fn with_time(commit: &CommitInfo, time: Option<String>) -> (entry: LogEntry)
        ensures
            entry@ == entry_with(
                commit@,
                match time {
                    Some(t) => Some(t@),
                    None => None,
                },
            ),
    {
        let id = commit.id.as_str();
        let short_id = if id.unicode_len() <= 7 {
            String::from_str(id)
        } else {
            String::from_str(id.substring_char(0, 7))
        };
        let timestamp = match time {
            Some(t) => t,
            None => String::from_str("Unknown time"),
        };
        let author = match &commit.author {
            Some(a) => a.clone(),
            None => String::from_str("Unknown"),
        };
        let summary = match &commit.summary {
            Some(s) => s.clone(),
            None => String::from_str("<no message>"),
        };
        LogEntry { short_id, timestamp, author, summary }
    }

    /// The line as it is shown: identifier, time, summary, and the author in brackets.
    pub fn line(&self) -> (line: String)
        ensures
            line@ == self.short_id@ + " "@ + self.timestamp@ + " - "@ + self.summary@ + " ("@
                + self.author@ + ")"@,
    {
        self.short_id.clone().concat(" ").concat(self.timestamp.as_str()).concat(" - ").concat(
            self.summary.as_str(),
        ).concat(" (").concat(self.author.as_str()).concat(")")
    }
}

impl Signature {
    /// The fixed local identity that every commit is signed with.
    pub fn local() -> (signature: Signature)
        ensures
            signature.name@ == "configsync"@,
            signature.email@ == "configsync@localhost"@,
    {
        Signature {
            name: String::from_str("configsync"),
            email: String::from_str("configsync@localhost"),
        }
    }
}

impl GitRepository {
    /// Attaches to the store that `probe` describes. The branch is the one the
    /// store names as current, and `configured` where it names none.
    ///
    /// Fails with `NotInitialized` where no store is there and with
    /// `RepositoryFailure` where its metadata is corrupt.
    pub fn open(probe: StoreProbe, configured: &str) -> (opened: Result<GitRepository, SyncError>)
        ensures
            match probe {
                StoreProbe::Absent => opened matches Err(e) && e.kind == ErrorKind::NotInitialized
                    && e.context@ == "no version-controlled directory found"@,
                StoreProbe::Corrupt(reason) => opened matches Err(e) && e.kind
                    == ErrorKind::RepositoryFailure && e.context@ == reason@,
                StoreProbe::Present { head, branch, has_origin } => opened matches Ok(repo)
                    && repo.head == head && repo.has_origin == has_origin && repo.branch@
                    == match branch {
                    Some(b) => b@,
                    None => configured@,
                },
            },
    {
        match probe {
            StoreProbe::Absent => Err(
                SyncError::new(ErrorKind::NotInitialized, "no version-controlled directory found"),
            ),
            StoreProbe::Corrupt(reason) => Err(
                SyncError::new(ErrorKind::RepositoryFailure, reason.as_str()),
            ),
            StoreProbe::Present { head, branch, has_origin } => {
                let branch = match branch {
                    Some(b) => b,
                    None => String::from_str(configured),
                };
                Ok(GitRepository { head, branch, has_origin })
            },
        }
    }

    /// Asks for a commit of everything under the tree's root. Its parent is the
    /// current head, or none where this is the first commit; it is signed with
    /// the fixed local identity.
    pub fn commit_all(&self, message: &str) -> (request: CommitRequest)
        ensures
            request@ == commit_on(self@.head, message@),
    {
        let mut parents: Vec<String> = Vec::new();
        match &self.head {
            Some(commit) => {
                parents.push(commit.id.clone());
            },
            None => {},
        }
        let request = CommitRequest {
            message: String::from_str(message),
            parents,
            signature: Signature::local(),
            pathspec: String::from_str("*"),
            update: String::from_str("HEAD"),
        };
        assert(request@.parents =~= commit_on(self@.head, message@).parents);
        request
    }

    /// Asks for the current branch to be sent to the remote `origin`.
    ///
    /// Fails with `RepositoryFailure`, naming the remote, exactly where no such
    /// remote is configured.
    pub fn push(&self) -> (request: Result<PushRequest, SyncError>)
        ensures
            match request {
                Ok(r) => self.has_origin && r.remote@ == "origin"@ && r.refspec@
                    == branch_reference(self.branch@) + ":"@ + branch_reference(self.branch@),
                Err(e) => !self.has_origin && e.kind == ErrorKind::RepositoryFailure && e.context@
                    == "origin"@,
            },
    {
        if !self.has_origin {
            return Err(SyncError::new(ErrorKind::RepositoryFailure, "origin"));
        }
        let reference = String::from_str("refs/heads/").concat(self.branch.as_str());
        let refspec = reference.clone().concat(":").concat(reference.as_str());
        Ok(PushRequest { remote: String::from_str("origin"), refspec })
    }

    /// Asks for the tracked branch to be fetched from the remote `origin`: the
    /// first half of a pull.
    ///
    /// Fails with `RepositoryFailure`, naming the remote, exactly where no such
    /// remote is configured.
    pub fn fetch(&self) -> (request: Result<FetchRequest, SyncError>)
        ensures
            match request {
                Ok(r) => self.has_origin && r.remote@ == "origin"@ && r.branch@ == self.branch@,
                Err(e) => !self.has_origin && e.kind == ErrorKind::RepositoryFailure && e.context@
                    == "origin"@,
            },
    {
        if !self.has_origin {
            return Err(SyncError::new(ErrorKind::RepositoryFailure, "origin"));
        }
        Ok(FetchRequest { remote: String::from_str("origin"), branch: self.branch.clone() })
    }

    /// Decides how a pull ends, from what the fetch brought.
    ///
    /// Up to date: nothing to do. Fast-forward possible: the branch moves to
    /// the fetched commit. Otherwise the histories have diverged: the pull
    /// fails with `RepositoryFailure`, naming the fetched commit, and nothing
    /// is merged or changed.
    pub fn pull(&self, fetched: &Fetched) -> (step: Result<PullStep, SyncError>)
        ensures
            match step {
                Ok(s) => pull_step(
                    self.branch@,
                    fetched.tip@,
                    fetched.up_to_date,
                    fetched.fast_forward,
                ) == Some(s@),
                Err(e) => e.kind == ErrorKind::RepositoryFailure && e.context@ == fetched.tip@
                    && pull_step(
                    self.branch@,
                    fetched.tip@,
                    fetched.up_to_date,
                    fetched.fast_forward,
                ) is None,
            },
    {
        if fetched.up_to_date {
            Ok(PullStep::UpToDate)
        } else if fetched.fast_forward {
            let reference = String::from_str("refs/heads/").concat(self.branch.as_str());
            let note = String::from_str("Fast-Forward: Setting ").concat(reference.as_str()).concat(
                " to id: ",
            ).concat(fetched.tip.as_str());
            Ok(PullStep::FastForward { reference, target: fetched.tip.clone(), note })
        } else {
            Err(SyncError::new(ErrorKind::RepositoryFailure, fetched.tip.as_str()))
        }
    }

    /// Turns a walk over the history, newest commit first, into at most
    /// `limit` history lines.
    pub fn log(&self, walk: &Vec<CommitInfo>, limit: usize) -> (lines: Vec<LogEntry>)
        ensures
            log_entries(lines@) == history(commits(walk@), limit as int),
    {
        let count = if limit < walk.len() {
            limit
        } else {
            walk.len()
        };
        let mut lines: Vec<LogEntry> = Vec::new();
        let mut i: usize = 0;
        while i < count
            invariant
                i <= count <= walk.len(),
                lines@.len() == i,
                forall|j: int| 0 <= j < i ==> (#[trigger] lines@[j])@ == entry_of(walk@[j]@),
            decreases count - i,
        {
            lines.push(LogEntry::of(&walk[i]));
            i += 1;
        }
        lines
    }

    /// Names the commit that a revert is aimed at: the one `commit_hash`
    /// stands for, or the current head where none is given.
    ///
    /// Fails with `RepositoryFailure` where the hash is not one to forty
    /// hexadecimal digits, naming the hash, and where none is given and there
    /// is no commit yet, naming `HEAD`.
    pub fn revert_target(&self, commit_hash: Option<&str>) -> (target: Result<String, SyncError>)
        ensures
            match commit_hash {
                Some(hash) => if is_commit_hash(hash@) {
                    target matches Ok(id) && id@ == full_id(hash@)
                } else {
                    target matches Err(e) && e.kind == ErrorKind::RepositoryFailure && e.context@
                        == hash@
                },
                None => match self@.head {
                    Some(head) => target matches Ok(id) && id@ == head.id,
                    None => target matches Err(e) && e.kind == ErrorKind::RepositoryFailure
                        && e.context@ == "HEAD"@,
                },
            },
    {
        match commit_hash {
            Some(hash) => match parse_commit_hash(hash) {
                Some(id) => Ok(id),
                None => Err(SyncError::new(ErrorKind::RepositoryFailure, hash)),
            },
            None => match &self.head {
                Some(head) => Ok(head.id.clone()),
                None => Err(SyncError::new(ErrorKind::RepositoryFailure, "HEAD")),
            },
        }
    }

    /// Asks for the commit that completes a revert of the commit `target`.
    /// `found` is that commit as the store has it, or `None` where the store
    /// has no such commit; `clean` says whether the inverse of its changes
    /// could be applied to the working tree and index without conflicts.
    ///
    /// The new commit is an ordinary one on top of the current head, and its
    /// message refers to the summary of the commit it reverts. Fails with
    /// `RepositoryFailure`, naming the target, where the commit does not exist
    /// or the inverse does not apply cleanly.
    pub fn revert(&self, target: &str, found: Option<&CommitInfo>, clean: bool) -> (request:
        Result<CommitRequest, SyncError>)
        ensures
            match found {
                Some(commit) if clean => request matches Ok(r) && r@ == commit_on(
                    self@.head,
                    revert_message(commit@.summary),
                ),
                _ => request matches Err(e) && e.kind == ErrorKind::RepositoryFailure && e.context@
                    == target@,
            },
    {
        match found {
            None => Err(SyncError::new(ErrorKind::RepositoryFailure, target)),
            Some(commit) => {
                if !clean {
                    return Err(SyncError::new(ErrorKind::RepositoryFailure, target));
                }
                let mut message = String::from_str("Revert \"");
                match &commit.summary {
                    Some(s) => {
                        message.append(s.as_str());
                    },
                    None => {},
                }
                message.append("\"");
                Ok(self.commit_all(message.as_str()))
            },
        }
    }
}

} // verus!
