//! A model of the filesystem that a reconciliation run works on, and what a
//! whole run does to it.
//!
//! The model keeps apart what a run only reads (the artifacts in the managed
//! directory and the persisted identity) and what it changes (the nodes at the
//! destinations). Each destination is a cell of its own: a change made for one
//! destination leaves every other destination as it was, and every change
//! asked for is carried out.

use vstd::prelude::*;
use crate::context::EnvView;
use crate::engine::apply::{applies, decide, Outcome, ProbeView, StepView};
use crate::fs::change::{lemma_owner_only, ActionView, OWNER_ONLY};
use crate::fs::symlink::PathStateView;
use crate::schema::{EntryView, FileType, ScopeView};
use crate::secret::cipher::plaintext_of;
use crate::secret::keys::identity_in;

verus! {

/// What occupies a destination.
pub enum Node {
    /// A symbolic link, and where it finally leads.
    Link { resolved: Option<Seq<char>> },
    /// A regular file with its content and its mode.
    File { content: Seq<u8>, mode: u32 },
    /// A directory.
    Directory,
    /// Anything else.
    Other,
}

/// The destinations that are occupied, each with its node.
pub type Places = Map<Seq<char>, Node>;

/// Everything a run reads and never changes.
pub struct Setting {
    /// The roles this machine holds.
    pub held: Seq<Seq<char>>,
    /// The fixed locations.
    pub env: EnvView,
    /// The artifacts that exist, each with its resolved location.
    pub sources: Map<Seq<char>, Seq<char>>,
    /// The artifacts that can be read, each with its bytes.
    pub contents: Map<Seq<char>, Seq<u8>>,
    /// The text of the persisted identity, where there is one.
    pub key: Option<Seq<char>>,
}

/// The node at `path`, or `None` where nothing is there.
pub open spec fn node_at(places: Places, path: Seq<char>) -> Option<Node> {
    if places.dom().contains(path) {
        Some(places[path])
    } else {
        None
    }
}

/// How a node shows to the caller that examines its path.
pub open spec fn state_of(node: Option<Node>) -> PathStateView {
    match node {
        None => PathStateView::Missing,
        Some(Node::Link { resolved }) => PathStateView::Link { resolved },
        Some(Node::File { content, mode }) => PathStateView::File,
        Some(Node::Directory) => PathStateView::Directory,
        Some(Node::Other) => PathStateView::Other,
    }
}

/// The bytes of a node, where it is a regular file.
pub open spec fn content_of(node: Option<Node>) -> Option<Seq<u8>> {
    match node {
        Some(Node::File { content, mode }) => Some(content),
        _ => None,
    }
}

/// The mode of a node, where it is a regular file.
pub open spec fn mode_of(node: Option<Node>) -> Option<u32> {
    match node {
        Some(Node::File { content, mode }) => Some(mode),
        _ => None,
    }
}

impl Setting {
    /// Where `entry` is placed.
    pub open spec fn destination(self, entry: EntryView) -> Seq<char> {
        self.env.destination_path(entry)
    }

    /// What examining the filesystem for `entry` yields when `node` is at its
    /// destination.
    pub open spec fn observe_node(self, entry: EntryView, node: Option<Node>) -> ProbeView {
        ProbeView {
            source: self.sources.get(self.env.source_path(entry)),
            destination: state_of(node),
            ciphertext: self.contents.get(self.env.source_path(entry)),
            current: content_of(node),
            current_mode: mode_of(node),
            key: self.key,
        }
    }

    /// What examining the filesystem for `entry` yields.
    pub open spec fn observe(self, places: Places, entry: EntryView) -> ProbeView {
        self.observe_node(entry, node_at(places, self.destination(entry)))
    }

    /// The decision on `entry` in the state `places`.
    pub open spec fn decision(self, places: Places, entry: EntryView) -> StepView {
        decide(entry, self.held, self.env, self.observe(places, entry))
    }

    /// The destinations after `action` has been carried out.
    pub open spec fn perform(self, places: Places, action: ActionView) -> Places {
        match action {
            ActionView::Nothing => places,
            ActionView::Link { original, link } => places.insert(
                link,
                Node::Link { resolved: self.sources.get(original) },
            ),
            ActionView::Write { path, content, mode } => places.insert(
                path,
                Node::File { content, mode },
            ),
        }
    }

    /// The destinations after `entry` has been handled.
    pub open spec fn step(self, places: Places, entry: EntryView) -> Places {
        self.perform(places, self.decision(places, entry).action)
    }

    /// The destinations after every one of `entries` has been handled, in order.
    pub open spec fn run(self, entries: Seq<EntryView>, places: Places) -> Places
        decreases entries.len(),
    {
        if entries.len() == 0 {
            places
        } else {
            self.run(entries.drop_first(), self.step(places, entries[0]))
        }
    }

    /// How the entry at position `i` fares in a run that starts from `places`.
    pub open spec fn outcome_at(self, entries: Seq<EntryView>, places: Places, i: int) -> Outcome {
        self.decision(self.run(entries.take(i), places), entries[i]).outcome
    }

    /// Whether no two entries that apply to this machine share a destination.
    pub open spec fn distinct_destinations(self, entries: Seq<EntryView>) -> bool {
        forall|i: int, j: int|
            0 <= i < j < entries.len() && applies(entries[i].roles, self.held) && applies(
                entries[j].roles,
                self.held,
            ) ==> self.destination(#[trigger] entries[i]) != self.destination(
                #[trigger] entries[j],
            )
    }

    /// The content that `entry` puts at its destination whenever that is free
    /// or a regular file: the opened secret, where the entry is an applicable
    /// secret that can be opened.
    pub open spec fn written(self, entry: EntryView) -> Option<Seq<u8>> {
        if applies(entry.roles, self.held) && entry.file_type == FileType::Secret {
            match identity_in(self.key) {
                Ok(identity) => match self.contents.get(self.env.source_path(entry)) {
                    Some(sealed) => plaintext_of(sealed, identity),
                    None => None,
                },
                Err(_) => None,
            }
        } else {
            None
        }
    }

    /// The content that the last of `entries` to write at `path` puts there.
    pub open spec fn last_written(self, entries: Seq<EntryView>, path: Seq<char>) -> Option<
        Seq<u8>,
    >
        decreases entries.len(),
    {
        if entries.len() == 0 {
            None
        } else {
            match self.last_written(entries.drop_first(), path) {
                Some(content) => Some(content),
                None => if self.destination(entries[0]) == path {
                    self.written(entries[0])
                } else {
                    None
                },
            }
        }
    }
}

/// Whether a node is one that no entry ever changes: a link, a directory or
/// something else that is not a regular file.
pub open spec fn settled(node: Option<Node>) -> bool {
    node is Some && !(node->0 is File)
}

/// Role filtering: an entry applies exactly where its scope is universal or
/// names a role that this machine holds. An entry that does not apply is
/// skipped, whatever is on the filesystem, and nothing is changed for it; an
/// entry that applies is never skipped.
pub proof fn lemma_role_filtering(setting: Setting, places: Places, entry: EntryView)
    ensures
        applies(entry.roles, setting.held) <==> match entry.roles {
            ScopeView::Universal => true,
            ScopeView::RoleRestricted(names) => exists|name: Seq<char>|
                names.contains(name) && setting.held.contains(name),
        },
        !applies(entry.roles, setting.held) ==> {
            &&& setting.decision(places, entry).outcome == Outcome::Skipped
            &&& setting.decision(places, entry).action == ActionView::Nothing
            &&& setting.step(places, entry) == places
        },
        applies(entry.roles, setting.held) ==> setting.decision(places, entry).outcome
            != Outcome::Skipped,
{
    match entry.roles {
        ScopeView::Universal => {},
        ScopeView::RoleRestricted(names) => {
            if applies(entry.roles, setting.held) {
                let i = choose|i: int|
                    #![trigger names[i]]
                    0 <= i < names.len() && setting.held.contains(names[i]);
                assert(names.contains(names[i]));
            }
        },
    }
}

/// An entry that has been brought into place is recognised as being in place:
/// handling it again, right after it was handled, changes nothing, and where
/// it was linked, materialised or found in place before, it is found in place.
pub proof fn lemma_entry_settles(setting: Setting, places: Places, entry: EntryView)
    ensures
        ({
            let first = setting.decision(places, entry);
            let once = setting.step(places, entry);
            &&& setting.step(once, entry) == once
            &&& setting.decision(once, entry).action == ActionView::Nothing
            &&& first.outcome == Outcome::Linked || first.outcome == Outcome::Materialized
                || first.outcome == Outcome::Unchanged ==> setting.decision(once, entry).outcome
                == Outcome::Unchanged
            &&& first.outcome is Failed || first.outcome == Outcome::Skipped ==> setting.decision(
                once,
                entry,
            ) == first
        }),
{
    lemma_owner_only();
}

/// A run leaves a destination as it was where no entry that applies is placed
/// there.
pub proof fn lemma_run_elsewhere(
    setting: Setting,
    entries: Seq<EntryView>,
    places: Places,
    path: Seq<char>,
)
    requires
        forall|k: int|
            0 <= k < entries.len() && applies((#[trigger] entries[k]).roles, setting.held)
                ==> setting.destination(entries[k]) != path,
    ensures
        node_at(setting.run(entries, places), path) == node_at(places, path),
    decreases entries.len(),
{
    if entries.len() > 0 {
        lemma_run_elsewhere(
            setting,
            entries.drop_first(),
            setting.step(places, entries[0]),
            path,
        );
    }
}

/// Where no two applicable entries share a destination, a second run is
/// quiet: it asks for no change at all, and every entry that the first run
/// linked, materialised or found in place is found in place.
pub proof fn lemma_second_run_is_quiet(
    setting: Setting,
    entries: Seq<EntryView>,
    places: Places,
    i: int,
)
    requires
        0 <= i < entries.len(),
        setting.distinct_destinations(entries),
    ensures
        ({
            let once = setting.run(entries, places);
            let first = setting.decision(setting.run(entries.take(i), places), entries[i]);
            let second = setting.decision(setting.run(entries.take(i), once), entries[i]);
            &&& second.action == ActionView::Nothing
            &&& first.outcome == Outcome::Linked || first.outcome == Outcome::Materialized
                || first.outcome == Outcome::Unchanged ==> second.outcome == Outcome::Unchanged
            &&& second.outcome == setting.outcome_at(entries, once, i)
        }),
{
    let entry = entries[i];
    if applies(entry.roles, setting.held) {
        let path = setting.destination(entry);
        let once = setting.run(entries, places);
        let front = entries.take(i);
        let back = entries.skip(i + 1);
        let before = setting.run(front, places);
        let after = setting.step(before, entry);
        lemma_run_split(setting, entries, places, i);
        assert(entries.skip(i).drop_first() =~= back);
        lemma_run_elsewhere(setting, back, after, path);
        lemma_run_elsewhere(setting, front, once, path);
        lemma_entry_settles(setting, before, entry);
    }
}

/// A settled node outlasts a run.
pub proof fn lemma_run_settled(
    setting: Setting,
    entries: Seq<EntryView>,
    places: Places,
    path: Seq<char>,
)
    requires
        settled(node_at(places, path)),
    ensures
        node_at(setting.run(entries, places), path) == node_at(places, path),
    decreases entries.len(),
{
    if entries.len() > 0 {
        lemma_run_settled(setting, entries.drop_first(), setting.step(places, entries[0]), path);
    }
}

/// A regular file stays one through a run. At the end it holds what the last
/// entry to write there put, or else what it held before; and it is either
/// exactly as it was or has the owner-only permission bits.
pub proof fn lemma_run_file(
    setting: Setting,
    entries: Seq<EntryView>,
    places: Places,
    path: Seq<char>,
)
    requires
        node_at(places, path) matches Some(Node::File { content, mode }),
    ensures
        node_at(setting.run(entries, places), path) matches Some(Node::File { content, mode })
            && content == match setting.last_written(entries, path) {
            Some(plain) => plain,
            None => node_at(places, path)->0->content,
        } && (mode == OWNER_ONLY || node_at(setting.run(entries, places), path) == node_at(
            places,
            path,
        )),
    decreases entries.len(),
{
    if entries.len() > 0 {
        let next = setting.step(places, entries[0]);
        lemma_run_file(setting, entries.drop_first(), next, path);
    }
}

/// Where a run turns a free destination into a regular file, the file holds
/// what the last entry to write there put, with the owner-only permission
/// bits.
pub proof fn lemma_run_free(
    setting: Setting,
    entries: Seq<EntryView>,
    places: Places,
    path: Seq<char>,
)
    requires
        node_at(places, path) is None,
    ensures
        node_at(setting.run(entries, places), path) matches Some(Node::File { content, mode })
            ==> setting.last_written(entries, path) == Some(content) && mode == OWNER_ONLY,
    decreases entries.len(),
{
    if entries.len() > 0 {
        let next = setting.step(places, entries[0]);
        match node_at(next, path) {
            None => {
                lemma_run_free(setting, entries.drop_first(), next, path);
            },
            Some(Node::File { content, mode }) => {
                lemma_run_file(setting, entries.drop_first(), next, path);
            },
            _ => {
                lemma_run_settled(setting, entries.drop_first(), next, path);
            },
        }
    }
}

/// What a run leaves at a destination depends on what was there alone.
pub proof fn lemma_run_local(
    setting: Setting,
    entries: Seq<EntryView>,
    first: Places,
    second: Places,
    path: Seq<char>,
)
    requires
        node_at(first, path) == node_at(second, path),
    ensures
        node_at(setting.run(entries, first), path) == node_at(setting.run(entries, second), path),
    decreases entries.len(),
{
    if entries.len() > 0 {
        lemma_run_local(
            setting,
            entries.drop_first(),
            setting.step(first, entries[0]),
            setting.step(second, entries[0]),
            path,
        );
    }
}

/// A run over a list is the run over its first `k` entries followed by the run
/// over the rest.
pub proof fn lemma_run_split(setting: Setting, entries: Seq<EntryView>, places: Places, k: int)
    requires
        0 <= k <= entries.len(),
    ensures
        setting.run(entries, places) == setting.run(
            entries.skip(k),
            setting.run(entries.take(k), places),
        ),
    decreases k,
{
    if k == 0 {
        assert(entries.skip(0) =~= entries);
    } else {
        let next = setting.step(places, entries[0]);
        let rest = entries.drop_first();
        lemma_run_split(setting, rest, next, k - 1);
        assert(rest.skip(k - 1) =~= entries.skip(k));
        assert(entries.take(k).drop_first() =~= rest.take(k - 1));
    }
}

/// At every destination, a second run leaves what the first run left.
pub proof fn lemma_cell_idempotent(
    setting: Setting,
    entries: Seq<EntryView>,
    places: Places,
    path: Seq<char>,
)
    ensures
        node_at(setting.run(entries, setting.run(entries, places)), path) == node_at(
            setting.run(entries, places),
            path,
        ),
{
    let once = setting.run(entries, places);
    match node_at(places, path) {
        None => {
            lemma_run_free(setting, entries, places, path);
            match node_at(once, path) {
                None => {
                    lemma_run_local(setting, entries, places, once, path);
                },
                Some(Node::File { content, mode }) => {
                    lemma_run_file(setting, entries, once, path);
                },
                _ => {
                    lemma_run_settled(setting, entries, once, path);
                },
            }
        },
        Some(Node::File { content, mode }) => {
            lemma_run_file(setting, entries, places, path);
            lemma_run_file(setting, entries, once, path);
            if node_at(once, path) == node_at(places, path) {
                lemma_run_local(setting, entries, places, once, path);
            }
        },
        _ => {
            lemma_run_settled(setting, entries, places, path);
            lemma_run_settled(setting, entries, once, path);
        },
    }
}

/// An entry that has a problem in a second run had the same problem in the
/// first.
pub proof fn lemma_no_new_problem(
    setting: Setting,
    entries: Seq<EntryView>,
    places: Places,
    i: int,
)
    requires
        0 <= i < entries.len(),
        setting.outcome_at(entries, setting.run(entries, places), i) is Failed,
    ensures
        setting.outcome_at(entries, places, i) == setting.outcome_at(
            entries,
            setting.run(entries, places),
            i,
        ),
{
    let once = setting.run(entries, places);
    let entry = entries[i];
    let path = setting.destination(entry);
    let before = setting.run(entries.take(i), places);
    let after = setting.step(before, entry);
    if setting.outcome_at(entries, places, i) != setting.outcome_at(entries, once, i) {
        // The problem of the second run is a conflict that the first run did
        // not have: the first run then left a link or a file of its own here.
        lemma_run_split(setting, entries, places, i);
        assert(entries.skip(i).drop_first() =~= entries.skip(i + 1));
        match node_at(after, path) {
            Some(Node::File { content, mode }) => {
                lemma_run_file(setting, entries.skip(i + 1), after, path);
                lemma_run_file(setting, entries.take(i), once, path);
            },
            None => {},
            _ => {
                lemma_run_settled(setting, entries.skip(i + 1), after, path);
                lemma_run_settled(setting, entries.take(i), once, path);
            },
        }
    }
}

/// Idempotence of reconciliation: a second run, started from what the first
/// run left, leaves every destination as it found it, and no entry has a
/// problem in it that it did not have in the first run.
pub proof fn lemma_apply_idempotent(setting: Setting, entries: Seq<EntryView>, places: Places)
    ensures
        setting.run(entries, setting.run(entries, places)) == setting.run(entries, places),
        forall|i: int|
            0 <= i < entries.len() && (#[trigger] setting.outcome_at(
                entries,
                setting.run(entries, places),
                i,
            )) is Failed ==> setting.outcome_at(entries, places, i) == setting.outcome_at(
                entries,
                setting.run(entries, places),
                i,
            ),
{
    let once = setting.run(entries, places);
    let twice = setting.run(entries, once);
    assert forall|path: Seq<char>| node_at(twice, path) == node_at(once, path) by {
        lemma_cell_idempotent(setting, entries, places, path);
    }
    assert forall|path: Seq<char>| twice.dom().contains(path) == once.dom().contains(path) by {
        assert(node_at(twice, path) == node_at(once, path));
    }
    assert forall|path: Seq<char>| twice.dom().contains(path) implies twice[path] == once[path] by {
        assert(node_at(twice, path) == node_at(once, path));
    }
    assert forall|i: int|
        0 <= i < entries.len() && (#[trigger] setting.outcome_at(entries, once, i)) is Failed
        implies setting.outcome_at(entries, places, i) == setting.outcome_at(entries, once, i) by {
        lemma_no_new_problem(setting, entries, places, i);
    }
}

} // verus!
