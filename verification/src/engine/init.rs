//! Initialisation: create or clone the store, write the default model, assign
//! the machine's roles, and reconcile once.

use vstd::prelude::*;
use crate::schema::TeamConfig;
use crate::state::LocalState;
use crate::text::texts;

verus! {

/// What was found at the managed directory.
#[derive(Clone, Copy, Debug, PartialEq, Eq, Structural)]
pub struct InitProbe {
    /// Whether the directory is there.
    pub present: bool,
    /// Whether it holds nothing.
    pub empty: bool,
    /// Whether it is version-controlled already.
    pub has_store: bool,
    /// Whether it holds a persisted model.
    pub has_model: bool,
}

/// What is to be done about the store.
#[derive(Clone, Debug, PartialEq, Eq)]
pub enum StoreStep {
    /// The directory is an initialised store already: leave it alone.
    Keep,
    /// Create the directory and clone the remote history into it.
    Clone { url: String },
    /// Create the directory and a new, empty store in it.
    Create,
}

/// The mathematical value of a [`StoreStep`].
pub enum StoreStepView {
    Keep,
    Clone { url: Seq<char> },
    Create,
}

impl View for StoreStep {
    type V = StoreStepView;

    open spec fn view(&self) -> StoreStepView {
        match self {
            StoreStep::Keep => StoreStepView::Keep,
            StoreStep::Clone { url } => StoreStepView::Clone { url: url@ },
            StoreStep::Create => StoreStepView::Create,
        }
    }
}

/// What the caller is to do to initialise this machine.
#[derive(Clone, Debug, PartialEq, Eq)]
pub struct InitPlan {
    pub store: StoreStep,
    /// The model to persist, where a default one is to be written.
    pub model: Option<TeamConfig>,
    /// Whether the role state changed and is to be persisted.
    pub save_state: bool,
    /// Whether a reconciliation run is to follow.
    pub apply: bool,
}

/// Whether the directory is an initialised store already.
pub open spec fn initialised(probe: InitProbe) -> bool {
    probe.present && !probe.empty && probe.has_store
}

/// What is to be done about the store.
pub open spec fn store_step(url: Option<Seq<char>>, probe: InitProbe) -> StoreStepView {
    if initialised(probe) {
        StoreStepView::Keep
    } else {
        match url {
            Some(u) => StoreStepView::Clone { url: u },
            None => StoreStepView::Create,
        }
    }
}

/// The roles held after each of `roles` has been assigned in turn.
pub open spec fn with_roles(held: Seq<Seq<char>>, roles: Seq<Seq<char>>) -> Seq<Seq<char>>
    decreases roles.len(),
{
    if roles.len() == 0 {
        held
    } else {
        let last = roles.last();
        let before = with_roles(held, roles.drop_last());
        if before.contains(last) {
            before
        } else {
            before.push(last)
        }
    }
}

/// Plans the initialisation of this machine.
///
/// An initialised store is left alone, and no reconciliation follows.
/// Otherwise the store is cloned from `url`, or created where no remote is
/// given; a created store gets the default model unless one is there; and a
/// reconciliation run follows. In every case the roles in `role` are assigned
/// to the machine.
pub fn init(url: Option<String>, role: &Vec<String>, state: &mut LocalState, probe: InitProbe) -> (plan:
    InitPlan)
    ensures
        final(state)@ == with_roles(old(state)@, texts(role@)),
        plan.store@ == store_step(
            match url {
                Some(u) => Some(u@),
                None => None,
            },
            probe,
        ),
        plan.model is Some <==> !initialised(probe) && url is None && !probe.has_model,
        plan.model matches Some(model) ==> model.is_default(),
        plan.save_state == (final(state)@ != old(state)@),
        plan.apply == !initialised(probe),
{
    let before = state.roles.len();
    let mut i: usize = 0;
    while i < role.len()
        invariant
            i <= role.len(),
            state@ == with_roles(old(state)@, texts(role@).take(i as int)),
            state@.len() >= old(state)@.len(),
            state@.len() == old(state)@.len() ==> state@ == old(state)@,
            before == old(state)@.len(),
        decreases role.len() - i,
    {
        proof {
            let next = texts(role@).take(i + 1);
            assert(next.drop_last() =~= texts(role@).take(i as int));
        }
        state.add_role(role[i].as_str());
        i += 1;
    }
    assert(texts(role@).take(i as int) =~= texts(role@));
    let save_state = state.roles.len() != before;
    let already = probe.present && !probe.empty && probe.has_store;
    if already {
        return InitPlan { store: StoreStep::Keep, model: None, save_state, apply: false };
    }
    match url {
        Some(u) => InitPlan { store: StoreStep::Clone { url: u }, model: None, save_state, apply: true },
        None => {
            let model = if probe.has_model {
                None
            } else {
                Some(TeamConfig::default())
            };
            InitPlan { store: StoreStep::Create, model, save_state, apply: true }
        },
    }
}

} // verus!
