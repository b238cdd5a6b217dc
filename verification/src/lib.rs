//! Declarative configuration synchronisation: the decisions behind mirroring
//! tracked files and secrets between a home directory and a versioned store.
//!
//! The library never touches the filesystem, the store on disk or the
//! network. Its caller reads what an operation needs, hands it over as plain
//! values, and carries out what the operation asks for in return.
//!
//! - [`schema`], [`state`] and [`loader`]: the declarative model, the roles of
//!   this machine, and what a missing or malformed document means.
//! - [`context`] and [`paths`]: the fixed locations, and paths as text.
//! - [`secret`]: the machine's key pair, sealing and opening.
//! - [`fs`]: what occupies a path, and the changes asked of the caller.
//! - [`engine`]: reconciliation, tracking new items, initialisation and the
//!   synchronisation commands, with a model of the filesystem over which
//!   reconciliation is shown to be idempotent.
//! - [`git`]: commit, push, pull, revert and log over a snapshot of the store,
//!   with a model of the history over which their effect is stated.
//! - [`watch`]: the reactions of the unattended daemon.
//! - [`doctor`]: the diagnostic report.

pub mod context;
pub mod doctor;
pub mod engine;
pub mod error;
pub mod fs;
pub mod git;
pub mod loader;
pub mod paths;
pub mod schema;
pub mod secret;
pub mod state;
pub mod text;
pub mod watch;
