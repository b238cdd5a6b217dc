//! The declarative model: team and store metadata and the ordered list of
//! tracked entries. Pure data with mathematical views.

use vstd::prelude::*;
use crate::text::texts;

verus! {

/// What a tracked entry is, and so how it is placed on a machine.
#[derive(Clone, Copy, Debug, PartialEq, Eq, Structural)]
pub enum FileType {
    /// A plain file, placed as a symbolic link into the store.
    File,
    /// A plain directory, placed as a symbolic link into the store.
    Directory,
    /// An encrypted file, placed as decrypted content.
    Secret,
}

/// The machines an entry applies to.
#[derive(Clone, Debug, PartialEq, Eq)]
pub enum RoleScope {
    /// Every machine.
    Universal,
    /// Only machines that hold at least one of the named roles.
    RoleRestricted(Vec<String>),
}

/// The mathematical value of a [`RoleScope`].
pub enum ScopeView {
    Universal,
    RoleRestricted(Seq<Seq<char>>),
}

impl View for RoleScope {
    type V = ScopeView;

    open spec fn view(&self) -> ScopeView {
        match self {
            RoleScope::Universal => ScopeView::Universal,
            RoleScope::RoleRestricted(roles) => ScopeView::RoleRestricted(texts(roles@)),
        }
    }
}

impl RoleScope {
    /// The scope named by a list of roles: no role at all means every machine.
    pub fn from_roles(roles: Vec<String>) -> (scope: RoleScope)
        ensures
            scope@ == if roles@.len() == 0 {
                ScopeView::Universal
            } else {
                ScopeView::RoleRestricted(texts(roles@))
            },
    {
        if roles.len() == 0 {
            RoleScope::Universal
        } else {
            RoleScope::RoleRestricted(roles)
        }
    }
}

/// One declared mapping from an artifact in the store to a destination path.
#[derive(Clone, Debug, PartialEq, Eq)]
pub struct FileConfig {
    /// Path relative to the store's root.
    pub source: String,
    /// Destination, possibly starting with the home-directory placeholder `~`.
    pub destination: String,
    pub file_type: FileType,
    /// Platform tags; informational.
    pub platforms: Vec<String>,
    /// Reserved for strict-failure handling.
    pub critical: bool,
    /// Reserved for overwrite guarding.
    pub protect: bool,
    pub roles: RoleScope,
}

/// The mathematical value of a [`FileConfig`].
pub struct EntryView {
    pub source: Seq<char>,
    pub destination: Seq<char>,
    pub file_type: FileType,
    pub platforms: Seq<Seq<char>>,
    pub critical: bool,
    pub protect: bool,
    pub roles: ScopeView,
}

impl View for FileConfig {
    type V = EntryView;

    open spec fn view(&self) -> EntryView {
        EntryView {
            source: self.source@,
            destination: self.destination@,
            file_type: self.file_type,
            platforms: texts(self.platforms@),
            critical: self.critical,
            protect: self.protect,
            roles: self.roles@,
        }
    }
}

/// The views of a list of entries, in declaration order.
pub open spec fn entries(files: Seq<FileConfig>) -> Seq<EntryView> {
    Seq::new(files.len(), |i: int| files[i]@)
}

/// Team metadata.
#[derive(Clone, Debug, PartialEq, Eq)]
pub struct Team {
    pub name: String,
    pub maintainers: Vec<String>,
}

/// Where the store is shared, and how often it is meant to be refreshed.
#[derive(Clone, Debug, PartialEq, Eq)]
pub struct Repository {
    pub url: String,
    pub branch: String,
    /// Seconds between automatic refreshes; informational.
    pub auto_update_interval: u64,
}

/// The refresh interval used where a model names none: 300 seconds.
pub fn default_auto_update_interval() -> (seconds: u64)
    ensures
        seconds == 300,
{
    300
}

/// Vault settings.
#[derive(Clone, Debug, PartialEq, Eq)]
pub struct SecretsConfig {
    pub vault_enabled: bool,
    pub vault_type: String,
    pub encrypted_files: Vec<String>,
}

impl Default for SecretsConfig {
    fn default() -> (config: SecretsConfig)
        ensures
            !config.vault_enabled,
            config.vault_type@ == Seq::<char>::empty(),
            config.encrypted_files@ == Seq::<String>::empty(),
    {
        SecretsConfig { vault_enabled: false, vault_type: String::new(), encrypted_files: Vec::new() }
    }
}

/// The whole declarative model.
#[derive(Clone, Debug, PartialEq, Eq)]
pub struct TeamConfig {
    pub team: Team,
    pub repository: Repository,
    pub files: Vec<FileConfig>,
    pub secrets: SecretsConfig,
}

impl TeamConfig {
    /// The tracked entries, in declaration order.
    pub open spec fn entries(&self) -> Seq<EntryView> {
        entries(self.files@)
    }

    /// Whether this is the model of a freshly initialised store: team
    /// `default-team`, branch `main`, no remote, a refresh every 300 seconds
    /// and nothing tracked.
    pub open spec fn is_default(&self) -> bool {
        &&& self.team.name@ == "default-team"@
        &&& self.team.maintainers@ == Seq::<String>::empty()
        &&& self.repository.url@ == Seq::<char>::empty()
        &&& self.repository.branch@ == "main"@
        &&& self.repository.auto_update_interval == 300
        &&& self.files@ == Seq::<FileConfig>::empty()
        &&& !self.secrets.vault_enabled
        &&& self.secrets.vault_type@ == Seq::<char>::empty()
        &&& self.secrets.encrypted_files@ == Seq::<String>::empty()
    }
}

impl Default for TeamConfig {
    /// The model of a freshly initialised store.
    fn default() -> (config: TeamConfig)
        ensures
            config.is_default(),
    {
        TeamConfig {
            team: Team { name: String::from_str("default-team"), maintainers: Vec::new() },
            repository: Repository {
                url: String::new(),
                branch: String::from_str("main"),
                auto_update_interval: default_auto_update_interval(),
            },
            files: Vec::new(),
            secrets: SecretsConfig::default(),
        }
    }
}

} // verus!
