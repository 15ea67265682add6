//! Subscription plans and the registry that numbers and keeps them.

use crate::error::Error;
use crate::model::{plan_definition_accepted, PlanView, RegistryModel};
use vstd::prelude::*;

verus! {

/// A subscription offering. A plan never changes once the registry holds it.
#[derive(Debug, PartialEq, Eq)]
pub struct Plan {
    pub id: u32,
    pub title: String,
    pub duration_days: u64,
    pub price: u128,
}

impl View for Plan {
    type V = PlanView;

    open spec fn view(&self) -> PlanView {
        PlanView {
            id: self.id as nat,
            title: self.title@,
            duration_days: self.duration_days as nat,
            price: self.price as nat,
        }
    }
}

impl Clone for Plan {
    fn clone(&self) -> (copy: Plan)
        ensures
            copy == *self,
    {
        Plan {
            id: self.id,
            title: self.title.clone(),
            duration_days: self.duration_days,
            price: self.price,
        }
    }
}

/// The plans of a contract, in the order in which they were created.
pub struct PlanRegistry {
    plans: Vec<Plan>,
}

impl View for PlanRegistry {
    type V = RegistryModel;

    closed spec fn view(&self) -> RegistryModel {
        RegistryModel { plans: self.plans@.map_values(|plan: Plan| plan@) }
    }
}

impl PlanRegistry {
    /// The registry's invariant: the model's, and no more plans than there
    /// are identifiers.
    pub closed spec fn well_formed(&self) -> bool {
        &&& self@.well_formed()
        &&& self.plans@.len() <= u32::MAX
    }

    /// Whether one more plan can be numbered.
    pub open spec fn has_room(&self) -> bool {
        self@.plans.len() < u32::MAX
    }

    /// A well-formed registry has a well-formed model.
    pub proof fn lemma_view_is_well_formed(&self)
        requires
            self.well_formed(),
        ensures
            self@.well_formed(),
            self@.plans.len() <= u32::MAX,
    {
    }

    /// A registry without plans.
    pub fn new() -> (registry: PlanRegistry)
        ensures
            registry.well_formed(),
            registry@ == RegistryModel::empty(),
    {
        let registry = PlanRegistry { plans: Vec::new() };
        assert(registry@.plans =~= Seq::empty());
        registry
    }

    /// The number of plans created so far, which is also the identifier of
    /// the newest one.
    pub fn plan_count(&self) -> (count: u32)
        requires
            self.well_formed(),
        ensures
            count == self@.plans.len(),
    {
        self.plans.len() as u32
    }

    /// Stores a new plan under the next identifier and returns that
    /// identifier. A definition with an empty title, a zero duration or a zero
    /// price is rejected, and the registry stays as it was.
    pub fn create_plan(&mut self, title: &str, duration_days: u64, price: u128) -> (outcome: Result<
        u32,
        Error,
    >)
        requires
            old(self).well_formed(),
            plan_definition_accepted(title@, duration_days as nat, price as nat) ==> old(
                self,
            ).has_room(),
        ensures
            final(self).well_formed(),
            final(self)@ == old(self)@.after_create_plan(
                title@,
                duration_days as nat,
                price as nat,
            ),
            match outcome {
                Ok(id) => old(self)@.create_plan_outcome(
                    title@,
                    duration_days as nat,
                    price as nat,
                ) == Ok::<nat, Error>(id as nat),
                Err(error) => old(self)@.create_plan_outcome(
                    title@,
                    duration_days as nat,
                    price as nat,
                ) == Err::<nat, Error>(error),
            },
    {
        if title.is_empty() || duration_days == 0 || price == 0 {
            return Err(Error::InvalidArgument);
        }
        let id: u32 = self.plans.len() as u32 + 1;
        let plan = Plan { id, title: title.to_owned(), duration_days, price };
        self.plans.push(plan);
        proof {
            let after = old(self)@.after_create_plan(title@, duration_days as nat, price as nat);
            assert(self@.plans =~= after.plans);
        }
        Ok(id)
    }

    /// The plan with this identifier, or `None` where no plan has it.
    pub fn get_plan(&self, plan_id: u32) -> (found: Option<&Plan>)
        requires
            self.well_formed(),
        ensures
            match found {
                Some(plan) => self@.get_plan(plan_id as nat) == Some(plan@),
                None => self@.get_plan(plan_id as nat) is None,
            },
    {
        if plan_id == 0 || plan_id as usize > self.plans.len() {
            None
        } else {
            Some(&self.plans[(plan_id - 1) as usize])
        }
    }

    /// The identifiers of all plans, oldest plan first.
    pub fn list_plan_ids(&self) -> (ids: Vec<u32>)
        requires
            self.well_formed(),
        ensures
            ids@.len() == self@.list_plan_ids().len(),
            forall|i: int| 0 <= i < ids@.len() ==> ids@[i] as nat == self@.list_plan_ids()[i],
            forall|i: int| 0 <= i < ids@.len() ==> ids@[i] == i + 1,
    {
        let mut ids: Vec<u32> = Vec::new();
        let mut i: usize = 0;
        while i < self.plans.len()
            invariant
                i <= self.plans.len(),
                ids@.len() == i,
                forall|j: int| 0 <= j < i ==> ids@[j] == self.plans@[j].id,
            decreases self.plans.len() - i,
        {
            ids.push(self.plans[i].id);
            i += 1;
        }
        assert forall|j: int| 0 <= j < ids@.len() implies ids@[j] == j + 1 by {
            assert(self@.plans[j].id == j + 1);
        }
        ids
    }
}

} // verus!
