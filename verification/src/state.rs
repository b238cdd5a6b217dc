//! The roles held by this machine. They live outside the shared store.

use vstd::prelude::*;
use crate::context::Environment;
use crate::paths::join;
use crate::text::{contains_text, texts};

verus! {

/// The machine-private state: the roles assigned to this machine.
#[derive(Clone, Debug, PartialEq, Eq)]
pub struct LocalState {
    pub roles: Vec<String>,
}

impl View for LocalState {
    type V = Seq<Seq<char>>;

    /// The role names, in the order in which they were assigned.
    open spec fn view(&self) -> Seq<Seq<char>> {
        texts(self.roles@)
    }
}

impl Default for LocalState {
    /// The state of a machine on first access: no role.
    fn default() -> (state: LocalState)
        ensures
            state@ == Seq::<Seq<char>>::empty(),
    {
        let state = LocalState { roles: Vec::new() };
        state
    }
}

impl LocalState {
    /// Whether no role occurs twice.
    pub open spec fn distinct(&self) -> bool {
        self@.no_duplicates()
    }

    /// Where the persisted role state lies: `state.toml` in machine-local
    /// storage, outside the managed directory.
    pub fn get_path(env: &Environment) -> (path: String)
        ensures
            path@ == env@.state_path(),
    {
        join(env.data_dir.as_str(), "state.toml")
    }

    /// Assigns `role` to this machine, unless it already holds it.
    pub fn add_role(&mut self, role: &str)
        ensures
            final(self)@ == if old(self)@.contains(role@) {
                old(self)@
            } else {
                old(self)@.push(role@)
            },
            old(self).distinct() ==> final(self).distinct(),
    {
        if !contains_text(&self.roles, role) {
            self.roles.push(String::from_str(role));
        }
    }

    /// Tells whether this machine holds `role`.
    pub fn has_role(&self, role: &str) -> (held: bool)
        ensures
            held == self@.contains(role@),
    {
        contains_text(&self.roles, role)
    }
}

} // verus!
