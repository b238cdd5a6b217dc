//! Tracking a new item: a plain file or directory that moves into the managed
//! directory and is linked back, or a secret whose ciphertext is stored there.

use vstd::prelude::*;
use crate::context::Environment;
use crate::error::{ErrorKind, SyncError};
use crate::paths::{collapse_home, collapse_home_spec, file_name, file_name_spec, join, join_spec};
use crate::schema::{entries, EntryView, FileConfig, FileType, RoleScope, ScopeView, TeamConfig};
use crate::secret::cipher::{encrypt, plaintext_of};
use crate::secret::keys::{get_key_path, get_public_key, identity_in, load_key, opt_view};
use crate::text::{same_text, texts};

verus! {

/// The platform tags of a new entry: the one tag that stands for every platform.
pub open spec fn every_platform() -> Seq<Seq<char>> {
    seq!["*"@]
}

/// The entry that tracks a plain file or directory called `name` whose place
/// on the machine is `destination`.
pub open spec fn plain_entry(
    name: Seq<char>,
    destination: Seq<char>,
    is_directory: bool,
    roles: Seq<Seq<char>>,
) -> EntryView {
    EntryView {
        source: name,
        destination,
        file_type: if is_directory {
            FileType::Directory
        } else {
            FileType::File
        },
        platforms: every_platform(),
        critical: false,
        protect: false,
        roles: if roles.len() == 0 {
            ScopeView::Universal
        } else {
            ScopeView::RoleRestricted(roles)
        },
    }
}

/// Where the ciphertext of the secret called `name` lies, relative to the
/// managed directory: under `secrets`, with the suffix `.age`.
pub open spec fn secret_source(name: Seq<char>) -> Seq<char> {
    "secrets/"@ + name + ".age"@
}

/// The entry that tracks the secret called `name` whose place on the machine
/// is `destination`.
pub open spec fn secret_entry(name: Seq<char>, destination: Seq<char>) -> EntryView {
    EntryView {
        source: secret_source(name),
        destination,
        file_type: FileType::Secret,
        platforms: every_platform(),
        critical: false,
        protect: false,
        roles: ScopeView::Universal,
    }
}

/// Whether some entry is placed at `destination`.
pub open spec fn tracks(entries: Seq<EntryView>, destination: Seq<char>) -> bool {
    exists|i: int| 0 <= i < entries.len() && (#[trigger] entries[i]).destination == destination
}

/// What the caller is to do to bring a plain item under management: move the
/// item at `from` to `to`, then make `from` a symbolic link to `to`.
#[derive(Clone, Debug, PartialEq, Eq)]
pub struct AddPlan {
    pub from: String,
    pub to: String,
}

/// What the caller is to do to store a secret: write `ciphertext` to `path`,
/// creating the directory above it as needed.
#[derive(Clone, Debug, PartialEq, Eq)]
pub struct SecretPlan {
    pub path: String,
    pub ciphertext: Vec<u8>,
    /// Whether the model gained an entry, and so has to be persisted.
    pub newly_tracked: bool,
}

/// The one tag that stands for every platform.
fn all_platforms() -> (tags: Vec<String>)
    ensures
        texts(tags@) == every_platform(),
{
    let mut tags: Vec<String> = Vec::new();
    tags.push(String::from_str("*"));
    tags
}

/// Tells whether some entry is placed at `destination`.
fn is_tracked(files: &Vec<FileConfig>, destination: &str) -> (found: bool)
    ensures
        found == tracks(entries(files@), destination@),
{
    let mut i: usize = 0;
    while i < files.len()
        invariant
            i <= files.len(),
            forall|j: int| 0 <= j < i ==> (#[trigger] entries(files@)[j]).destination != destination@,
        decreases files.len() - i,
    {
        if same_text(files[i].destination.as_str(), destination) {
            assert(entries(files@)[i as int].destination == destination@);
            return true;
        }
        i += 1;
    }
    false
}

/// Where the item at `path` is stored in the managed directory: under its own
/// name, directly below the root.
///
/// Fails with `IoFailure` exactly where `path` has no final component.
pub fn add_target(env: &Environment, path: &str) -> (target: Result<String, SyncError>)
    ensures
        match file_name_spec(path@) {
            Some(name) => target matches Ok(t) && t@ == join_spec(env@.config_dir, name),
            None => target matches Err(e) && e.kind == ErrorKind::IoFailure && e.context@ == path@,
        },
{
    match file_name(path) {
        Some(name) => Ok(join(env.config_dir.as_str(), name.as_str())),
        None => Err(SyncError::new(ErrorKind::IoFailure, path)),
    }
}

/// Tracks the plain file or directory at `path`, a resolved absolute path.
///
/// `is_directory` says what the item is and `occupied` whether its place in
/// the managed directory (see [`add_target`]) is already taken. On success the
/// model has gained, at its end, an entry for the item: its source is the
/// item's name, its destination `path` with the home directory collapsed, and
/// its scope `role`, where no role means every machine.
///
/// Fails with `IoFailure`, naming `path`, where `path` has no final component
/// and with `Conflict`, naming the place, where the place is taken; the model
/// is then unchanged.
pub fn add(
    config: &mut TeamConfig,
    env: &Environment,
    path: &str,
    is_directory: bool,
    occupied: bool,
    role: Vec<String>,
) -> (plan: Result<AddPlan, SyncError>)
    ensures
        final(config).team == old(config).team,
        final(config).repository == old(config).repository,
        final(config).secrets == old(config).secrets,
        match file_name_spec(path@) {
            None => plan matches Err(e) && e.kind == ErrorKind::IoFailure && e.context@ == path@
                && final(config).files == old(config).files,
            Some(name) => if occupied {
                plan matches Err(e) && e.kind == ErrorKind::Conflict && e.context@ == join_spec(
                    env@.config_dir,
                    name,
                ) && final(config).files == old(config).files
            } else {
                &&& plan matches Ok(p) && p.from@ == path@ && p.to@ == join_spec(
                    env@.config_dir,
                    name,
                )
                &&& final(config).entries() == old(config).entries().push(
                    plain_entry(
                        name,
                        collapse_home_spec(path@, env@.home),
                        is_directory,
                        texts(role@),
                    ),
                )
            },
        },
{
    let name = match file_name(path) {
        Some(name) => name,
        None => {
            return Err(SyncError::new(ErrorKind::IoFailure, path));
        },
    };
    let to = join(env.config_dir.as_str(), name.as_str());
    if occupied {
        return Err(SyncError::new(ErrorKind::Conflict, to.as_str()));
    }
    let home = match &env.home {
        Some(h) => Some(h.as_str()),
        None => None,
    };
    let entry = FileConfig {
        source: name,
        destination: collapse_home(path, home),
        file_type: if is_directory {
            FileType::Directory
        } else {
            FileType::File
        },
        platforms: all_platforms(),
        critical: false,
        protect: false,
        roles: RoleScope::from_roles(role),
    };
    config.files.push(entry);
    Ok(AddPlan { from: String::from_str(path), to })
}

/// Stores `sealed` as the ciphertext of the secret at `path`, a resolved
/// absolute path, and tracks the secret unless an entry with its destination
/// exists already.
///
/// The ciphertext goes under the `secrets` directory, named after the file
/// with the suffix `.age`, so that adding the same secret again overwrites its
/// ciphertext in place.
///
/// Fails with `IoFailure`, naming `path`, exactly where `path` has no final
/// component; the model is then unchanged.
pub fn track_secret(config: &mut TeamConfig, env: &Environment, path: &str, sealed: Vec<u8>) -> (plan:
    Result<SecretPlan, SyncError>)
    ensures
        final(config).team == old(config).team,
        final(config).repository == old(config).repository,
        final(config).secrets == old(config).secrets,
        match file_name_spec(path@) {
            None => plan matches Err(e) && e.kind == ErrorKind::IoFailure && e.context@ == path@
                && final(config).files == old(config).files,
            Some(name) => {
                let destination = collapse_home_spec(path@, env@.home);
                &&& plan matches Ok(p) && p.ciphertext@ == sealed@ && p.path@ == join_spec(
                    env@.secrets_dir(),
                    name + ".age"@,
                ) && p.newly_tracked == !tracks(old(config).entries(), destination)
                &&& final(config).entries() == if tracks(old(config).entries(), destination) {
                    old(config).entries()
                } else {
                    old(config).entries().push(secret_entry(name, destination))
                }
            },
        },
{
    let name = match file_name(path) {
        Some(name) => name,
        None => {
            return Err(SyncError::new(ErrorKind::IoFailure, path));
        },
    };
    let stored = name.clone().concat(".age");
    let target = join(env.secrets_dir().as_str(), stored.as_str());
    let home = match &env.home {
        Some(h) => Some(h.as_str()),
        None => None,
    };
    let destination = collapse_home(path, home);
    let newly_tracked = !is_tracked(&config.files, destination.as_str());
    if newly_tracked {
        let entry = FileConfig {
            source: String::from_str("secrets/").concat(stored.as_str()),
            destination,
            file_type: FileType::Secret,
            platforms: all_platforms(),
            critical: false,
            protect: false,
            roles: RoleScope::Universal,
        };
        assert(entry@.source =~= secret_source(name@));
        config.files.push(entry);
    }
    Ok(SecretPlan { path: target, ciphertext: sealed, newly_tracked })
}

/// Seals `content`, the bytes of the secret at `path`, for this machine and
/// tracks the secret (see [`track_secret`]). `key` is the text of the
/// persisted identity, or `None` where there is none.
///
/// Fails with `NotInitialized` where there is no identity and with
/// `CryptoFailure` where it is corrupt, naming the key file; and with
/// `IoFailure`, naming `path`, where `path` has no final component. Whenever
/// the operation fails, the model is unchanged. Otherwise it succeeds, and the
/// ciphertext that is to be stored opens to `content` under the identity.
pub fn add_secret(
    config: &mut TeamConfig,
    env: &Environment,
    path: &str,
    content: &[u8],
    key: Option<&str>,
) -> (plan: Result<SecretPlan, SyncError>)
    ensures
        final(config).team == old(config).team,
        final(config).repository == old(config).repository,
        final(config).secrets == old(config).secrets,
        plan is Err ==> final(config).files == old(config).files,
        match identity_in(opt_view(key)) {
            Err(kind) => plan matches Err(e) && e.kind == kind && e.context@ == env@.key_path(),
            Ok(identity) => match file_name_spec(path@) {
                None => plan matches Err(e) && e.kind == ErrorKind::IoFailure && e.context@
                    == path@,
                Some(name) => {
                    let destination = collapse_home_spec(path@, env@.home);
                    &&& plan matches Ok(p) && plaintext_of(p.ciphertext@, identity) == Some(
                        content@,
                    ) && p.path@ == join_spec(env@.secrets_dir(), name + ".age"@)
                        && p.newly_tracked == !tracks(old(config).entries(), destination)
                    &&& final(config).entries() == if tracks(old(config).entries(), destination) {
                        old(config).entries()
                    } else {
                        old(config).entries().push(secret_entry(name, destination))
                    }
                },
            },
        },
{
    let identity = match load_key(key) {
        Ok(identity) => identity,
        Err(e) => {
            return Err(SyncError::new(e.kind, get_key_path(env).as_str()));
        },
    };
    let recipient = get_public_key(&identity);
    match encrypt(content, &recipient) {
        Ok(sealed) => track_secret(config, env, path, sealed),
        Err(e) => Err(e),
    }
}

} // verus!
