//! The general laws of the pet state machine, proved over the mathematical
//! model: the clamp invariant holds in every reachable state, clamped actions
//! are idempotent at their bound, adoption is an exact append, and age-based
//! death is permanent.

use vstd::prelude::*;

use crate::PetModel;
use crate::default_model;

verus! {

/// One user action on a pet, as the model sees it.
pub enum Action {
    Feed,
    Walk,
    GrowUp,
    Adopt(Seq<char>),
}

impl PetModel {
    /// The model-level effect of one action.
    pub open spec fn step(self, a: Action) -> PetModel {
        match a {
            Action::Feed => self.feed_step(),
            Action::Walk => self.walk_step(),
            Action::GrowUp => self.grow_up_step(),
            Action::Adopt(child) => self.adopt_step(child),
        }
    }

    /// The state after a whole sequence of actions, applied left to right.
    pub open spec fn run(self, acts: Seq<Action>) -> PetModel
        decreases acts.len(),
    {
        if acts.len() == 0 {
            self
        } else {
            self.step(acts[0]).run(acts.drop_first())
        }
    }
}

/// A single action preserves the clamp invariant.
pub proof fn lemma_step_preserves_inv(m: PetModel, a: Action)
    requires
        m.inv(),
    ensures
        m.step(a).inv(),
{
}

/// The clamp invariant is preserved by any sequence of actions: from a state
/// with `hunger >= 0` and `fitness <= 10`, every run ends in such a state.
pub proof fn lemma_run_preserves_inv(m: PetModel, acts: Seq<Action>)
    requires
        m.inv(),
    ensures
        m.run(acts).inv(),
    decreases acts.len(),
{
    if acts.len() > 0 {
        lemma_step_preserves_inv(m, acts[0]);
        lemma_run_preserves_inv(m.step(acts[0]), acts.drop_first());
    }
}

/// Every state reachable from the default pet satisfies the clamp invariant.
pub proof fn lemma_reachable_inv(acts: Seq<Action>)
    ensures
        default_model().run(acts).inv(),
{
    lemma_run_preserves_inv(default_model(), acts);
}

/// Feeding at the floor is idempotent: with `hunger == 0` the pet is left
/// exactly as it was.
pub proof fn lemma_feed_at_floor(m: PetModel)
    requires
        m.hunger == 0,
    ensures
        m.feed_step() == m,
{
    assert(m.feed_step() =~= m);
}

/// Walking at the ceiling is idempotent: with `fitness == 10` the pet is left
/// exactly as it was.
pub proof fn lemma_walk_at_ceiling(m: PetModel)
    requires
        m.fitness == 10,
    ensures
        m.walk_step() == m,
{
    assert(m.walk_step() =~= m);
}

/// Adoption appends exactly one entry, equal to the given name, and preserves
/// every prior entry at its old position; nothing else changes.
pub proof fn lemma_adopt_appends(m: PetModel, child: Seq<char>)
    ensures
        m.adopt_step(child).children.len() == m.children.len() + 1,
        m.adopt_step(child).children.last() == child,
        forall|i: int| 0 <= i < m.children.len() ==> m.adopt_step(child).children[i]
            == m.children[i],
        m.adopt_step(child).name == m.name,
        m.adopt_step(child).age == m.age,
        m.adopt_step(child).hunger == m.hunger,
        m.adopt_step(child).fitness == m.fitness,
{
}

/// No action lowers the age.
pub proof fn lemma_step_age_monotone(m: PetModel, a: Action)
    ensures
        m.step(a).age >= m.age,
{
}

/// A run never lowers the age.
pub proof fn lemma_run_age_monotone(m: PetModel, acts: Seq<Action>)
    ensures
        m.run(acts).age >= m.age,
    decreases acts.len(),
{
    if acts.len() > 0 {
        lemma_step_age_monotone(m, acts[0]);
        lemma_run_age_monotone(m.step(acts[0]), acts.drop_first());
    }
}

/// Age-based death is permanent: once `age >= 30`, no sequence of actions —
/// feeding and walking included — makes the pet alive again.
pub proof fn lemma_age_death_permanent(m: PetModel, acts: Seq<Action>)
    requires
        m.age >= 30,
    ensures
        !m.run(acts).alive(),
{
    lemma_run_age_monotone(m, acts);
}

} // verus!
