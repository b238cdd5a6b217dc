//! The diagnostic report: what is wrong with the store, the placed entries
//! and the key, judged from what the caller read. Nothing is changed.

use vstd::prelude::*;
use crate::engine::apply::{applies, applies_to, Probe, ProbeView};
use crate::fs::change::permission_bits;
use crate::fs::symlink::{PathState, PathStateView};
use crate::git::repository::StoreProbe;
use crate::schema::{EntryView, FileConfig, FileType, TeamConfig};
use crate::state::LocalState;
use crate::text::same_text;

verus! {

/// One thing the report complains about. An entry is named by its position in
/// the model.
#[derive(Clone, Copy, Debug, PartialEq, Eq, Structural)]
pub enum Finding {
    /// The managed directory is not a readable store.
    StoreInvalid,
    /// The entry's artifact is not in the managed directory.
    SourceMissing(usize),
    /// Nothing is at the entry's destination, or a link that leads nowhere.
    DestinationMissing(usize),
    /// The destination of a secret is not a regular file.
    NotAFile(usize),
    /// The destination of a plain entry is not a symbolic link.
    NotALink(usize),
    /// The destination is a link that does not lead to the entry's artifact.
    WrongTarget(usize),
    /// The model tracks secrets and no identity is persisted.
    KeyMissing,
    /// The key file's permission bits are these, not owner-only.
    KeyUnsafe(u32),
}

/// What the report says about the entry at position `i`, or `None` where it
/// has nothing to complain about or the entry does not apply to this machine.
pub open spec fn entry_finding(
    entry: EntryView,
    held: Seq<Seq<char>>,
    probe: ProbeView,
    i: usize,
) -> Option<Finding> {
    if !applies(entry.roles, held) {
        None
    } else if probe.source is None {
        Some(Finding::SourceMissing(i))
    } else {
        match probe.destination {
            PathStateView::Missing => Some(Finding::DestinationMissing(i)),
            PathStateView::Link { resolved: None } => Some(Finding::DestinationMissing(i)),
            PathStateView::Link { resolved: Some(target) } => if entry.file_type
                == FileType::Secret {
                Some(Finding::NotAFile(i))
            } else if Some(target) == probe.source {
                None
            } else {
                Some(Finding::WrongTarget(i))
            },
            PathStateView::File => if entry.file_type == FileType::Secret {
                None
            } else {
                Some(Finding::NotALink(i))
            },
            _ => if entry.file_type == FileType::Secret {
                Some(Finding::NotAFile(i))
            } else {
                Some(Finding::NotALink(i))
            },
        }
    }
}

/// Whether the model tracks a secret.
pub open spec fn has_secrets(entries: Seq<EntryView>) -> bool {
    exists|i: int| 0 <= i < entries.len() && (#[trigger] entries[i]).file_type == FileType::Secret
}

/// What the report says about the key: `mode` is the mode of the key file, or
/// `None` where there is no such file.
pub open spec fn key_finding(entries: Seq<EntryView>, mode: Option<u32>) -> Option<Finding> {
    if !has_secrets(entries) {
        None
    } else {
        match mode {
            None => Some(Finding::KeyMissing),
            Some(m) => if permission_bits(m) != 0o600 {
                Some(Finding::KeyUnsafe(permission_bits(m)))
            } else {
                None
            },
        }
    }
}

/// `list` with `item` behind it, where there is one.
pub open spec fn with(list: Seq<Finding>, item: Option<Finding>) -> Seq<Finding> {
    match item {
        Some(f) => list.push(f),
        None => list,
    }
}

/// The findings on the first `n` entries, in declaration order.
pub open spec fn entry_findings(
    entries: Seq<EntryView>,
    held: Seq<Seq<char>>,
    probes: Seq<ProbeView>,
    n: nat,
) -> Seq<Finding>
    decreases n,
{
    if n == 0 {
        Seq::empty()
    } else {
        with(
            entry_findings(entries, held, probes, (n - 1) as nat),
            entry_finding(entries[n - 1], held, probes[n - 1], (n - 1) as usize),
        )
    }
}

/// The views of a list of probes, in order.
pub open spec fn probe_views(probes: Seq<Probe>) -> Seq<ProbeView> {
    Seq::new(probes.len(), |i: int| probes[i]@)
}

/// The whole report: the store first, then the entries in declaration order,
/// then the key.
pub open spec fn findings(
    entries: Seq<EntryView>,
    held: Seq<Seq<char>>,
    probes: Seq<ProbeView>,
    store_valid: bool,
    key_mode: Option<u32>,
) -> Seq<Finding> {
    let examined = if probes.len() < entries.len() {
        probes.len()
    } else {
        entries.len()
    };
    let store = if store_valid {
        Seq::empty()
    } else {
        seq![Finding::StoreInvalid]
    };
    with(store + entry_findings(entries, held, probes, examined), key_finding(entries, key_mode))
}

/// Judges one entry.
pub fn check_entry(entry: &FileConfig, state: &LocalState, probe: &Probe, i: usize) -> (found:
    Option<Finding>)
    ensures
        found == entry_finding(entry@, state@, probe@, i),
{
    if !applies_to(entry, state) {
        return None;
    }
    let source = match &probe.source {
        Some(s) => s,
        None => {
            return Some(Finding::SourceMissing(i));
        },
    };
    let secret = match entry.file_type {
        FileType::Secret => true,
        _ => false,
    };
    match &probe.destination {
        PathState::Missing => Some(Finding::DestinationMissing(i)),
        PathState::Link { resolved: None } => Some(Finding::DestinationMissing(i)),
        PathState::Link { resolved: Some(target) } => {
            if secret {
                Some(Finding::NotAFile(i))
            } else if same_text(target.as_str(), source.as_str()) {
                None
            } else {
                Some(Finding::WrongTarget(i))
            }
        },
        PathState::File => {
            if secret {
                None
            } else {
                Some(Finding::NotALink(i))
            }
        },
        _ => {
            if secret {
                Some(Finding::NotAFile(i))
            } else {
                Some(Finding::NotALink(i))
            }
        },
    }
}

/// Tells whether the model tracks a secret.
pub fn tracks_secrets(config: &TeamConfig) -> (any: bool)
    ensures
        any == has_secrets(config.entries()),
{
    let mut i: usize = 0;
    while i < config.files.len()
        invariant
            i <= config.files.len(),
            forall|j: int| 0 <= j < i ==> (#[trigger] config.entries()[j]).file_type
                != FileType::Secret,
        decreases config.files.len() - i,
    {
        match config.files[i].file_type {
            FileType::Secret => {
                assert(config.entries()[i as int].file_type == FileType::Secret);
                return true;
            },
            _ => {},
        }
        i += 1;
    }
    false
}

/// Judges the key file.
pub fn check_key(config: &TeamConfig, key_mode: Option<u32>) -> (found: Option<Finding>)
    ensures
        found == key_finding(config.entries(), key_mode),
{
    if !tracks_secrets(config) {
        return None;
    }
    match key_mode {
        None => Some(Finding::KeyMissing),
        Some(mode) => {
            let bits = mode & 0o777;
            if bits != 0o600 {
                Some(Finding::KeyUnsafe(bits))
            } else {
                None
            }
        },
    }
}

/// Draws up the report. `probes` holds what was found for each entry, in
/// declaration order; entries beyond its length are not judged. `store` is
/// what was found of the store, `key_mode` the mode of the key file, or `None`
/// where there is none. An empty report says that all is well.
pub fn check(
    config: &TeamConfig,
    state: &LocalState,
    probes: &Vec<Probe>,
    store: &StoreProbe,
    key_mode: Option<u32>,
) -> (report: Vec<Finding>)
    ensures
        report@ == findings(
            config.entries(),
            state@,
            probe_views(probes@),
            store is Present,
            key_mode,
        ),
{
    let mut report: Vec<Finding> = Vec::new();
    let valid = match store {
        StoreProbe::Present { .. } => true,
        _ => false,
    };
    if !valid {
        report.push(Finding::StoreInvalid);
    }
    let examined = if probes.len() < config.files.len() {
        probes.len()
    } else {
        config.files.len()
    };
    let ghost front = report@;
    let ghost views = probe_views(probes@);
    let mut i: usize = 0;
    while i < examined
        invariant
            i <= examined,
            examined <= probes.len(),
            examined <= config.files.len(),
            views == probe_views(probes@),
            report@ == front + entry_findings(config.entries(), state@, views, i as nat),
        decreases examined - i,
    {
        match check_entry(&config.files[i], state, &probes[i], i) {
            Some(f) => {
                report.push(f);
            },
            None => {},
        }
        i += 1;
    }
    match check_key(config, key_mode) {
        Some(f) => {
            report.push(f);
        },
        None => {},
    }
    report
}

} // verus!
