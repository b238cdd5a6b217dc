//! The fixed locations every operation works with, resolved once by the caller
//! and passed in explicitly.

use vstd::prelude::*;
use crate::paths::{expand_tilde, expand_tilde_spec, join, join_spec};
use crate::schema::{EntryView, FileConfig};

verus! {

/// Where the managed directory, the machine-local data and the home directory are.
#[derive(Clone, Debug, PartialEq, Eq)]
pub struct Environment {
    /// The managed, version-controlled directory.
    pub config_dir: String,
    /// Machine-local storage that is never shared.
    pub data_dir: String,
    /// The user's home directory, where one is known.
    pub home: Option<String>,
}

/// The mathematical value of an [`Environment`].
pub struct EnvView {
    pub config_dir: Seq<char>,
    pub data_dir: Seq<char>,
    pub home: Option<Seq<char>>,
}

impl View for Environment {
    type V = EnvView;

    open spec fn view(&self) -> EnvView {
        EnvView {
            config_dir: self.config_dir@,
            data_dir: self.data_dir@,
            home: match self.home {
                Some(h) => Some(h@),
                None => None,
            },
        }
    }
}

impl EnvView {
    /// Where the persisted model lies.
    pub open spec fn config_path(self) -> Seq<char> {
        join_spec(self.config_dir, "team-config.toml"@)
    }

    /// Where the ciphertexts of secrets lie.
    pub open spec fn secrets_dir(self) -> Seq<char> {
        join_spec(self.config_dir, "secrets"@)
    }

    /// Where the store keeps its own metadata.
    pub open spec fn metadata_dir(self) -> Seq<char> {
        join_spec(self.config_dir, ".git"@)
    }

    /// Where the persisted role state lies.
    pub open spec fn state_path(self) -> Seq<char> {
        join_spec(self.data_dir, "state.toml"@)
    }

    /// Where the persisted identity lies.
    pub open spec fn key_path(self) -> Seq<char> {
        join_spec(self.data_dir, "key.txt"@)
    }

    /// Where an entry's artifact lies inside the managed directory.
    pub open spec fn source_path(self, entry: EntryView) -> Seq<char> {
        join_spec(self.config_dir, entry.source)
    }

    /// Where an entry is placed on this machine.
    pub open spec fn destination_path(self, entry: EntryView) -> Seq<char> {
        expand_tilde_spec(entry.destination, self.home)
    }
}

impl Environment {
    /// The home directory as a string slice.
    fn home_text(&self) -> (home: Option<&str>)
        ensures
            crate::paths::opt_text(home) == self@.home,
    {
        match &self.home {
            Some(h) => Some(h.as_str()),
            None => None,
        }
    }

    /// Where the persisted model lies.
    pub fn config_path(&self) -> (path: String)
        ensures
            path@ == self@.config_path(),
    {
        join(self.config_dir.as_str(), "team-config.toml")
    }

    /// Where the ciphertexts of secrets lie.
    pub fn secrets_dir(&self) -> (path: String)
        ensures
            path@ == self@.secrets_dir(),
    {
        join(self.config_dir.as_str(), "secrets")
    }

    /// Where the store keeps its own metadata.
    pub fn metadata_dir(&self) -> (path: String)
        ensures
            path@ == self@.metadata_dir(),
    {
        join(self.config_dir.as_str(), ".git")
    }

    /// Where an entry's artifact lies inside the managed directory.
    pub fn source_path(&self, entry: &FileConfig) -> (path: String)
        ensures
            path@ == self@.source_path(entry@),
    {
        join(self.config_dir.as_str(), entry.source.as_str())
    }

    /// Where an entry is placed on this machine.
    pub fn destination_path(&self, entry: &FileConfig) -> (path: String)
        ensures
            path@ == self@.destination_path(entry@),
    {
        expand_tilde(entry.destination.as_str(), self.home_text())
    }
}

} // verus!
