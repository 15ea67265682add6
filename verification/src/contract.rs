//! The contract: one registry and one ledger behind the five operations that
//! callers see, plus the derived activity check.

use crate::address::Address;
use crate::clock::Timestamp;
use crate::error::Error;
use crate::ledger::{Subscription, SubscriptionLedger};
use crate::model::{
    plan_definition_accepted, ContractModel, SubscriptionStatus, SubscriptionView,
};
use crate::plan::{Plan, PlanRegistry};
use crate::theorems::{lemma_create_plan_keeps_well_formed, lemma_subscribe_keeps_well_formed};
use vstd::prelude::*;

verus! {

/// The state of one subscription contract. Independent instances share
/// nothing.
pub struct SubscriptionContract {
    registry: PlanRegistry,
    ledger: SubscriptionLedger,
}

impl View for SubscriptionContract {
    type V = ContractModel;

    closed spec fn view(&self) -> ContractModel {
        self.ledger.with_registry(&self.registry)
    }
}

impl SubscriptionContract {
    /// The invariant that every operation keeps.
    pub closed spec fn well_formed(&self) -> bool {
        &&& self.registry.well_formed()
        &&& self.ledger.well_formed()
        &&& self@.well_formed()
    }

    /// Whether the registry can number one more plan.
    pub open spec fn has_room(&self) -> bool {
        self@.registry.plans.len() < u32::MAX
    }

    /// A well-formed contract has a well-formed model, with no more plans
    /// than there are identifiers.
    pub proof fn lemma_view_is_well_formed(&self)
        requires
            self.well_formed(),
        ensures
            self@.well_formed(),
            self@.registry.plans.len() <= u32::MAX,
    {
        self.registry.lemma_view_is_well_formed();
    }

    /// A contract without plans and without subscriptions.
    pub fn new() -> (contract: SubscriptionContract)
        ensures
            contract.well_formed(),
            contract@ == ContractModel::empty(),
    {
        SubscriptionContract { registry: PlanRegistry::new(), ledger: SubscriptionLedger::new() }
    }

    /// The number of plans created so far.
    pub fn plan_count(&self) -> (count: u32)
        requires
            self.well_formed(),
        ensures
            count == self@.registry.plans.len(),
    {
        self.registry.plan_count()
    }

    /// Defines a plan and returns its identifier, the successor of the
    /// newest identifier handed out so far. A definition with an empty title,
    /// a zero duration or a zero price is rejected as an invalid argument; a
    /// rejected definition uses up no identifier.
    ///
    /// An accepted definition needs an identifier that a `u32` can hold:
    /// [`Self::plan_count`] must be below `u32::MAX`.
    pub fn create_plan(&mut self, title: &str, duration_days: u64, price: u128) -> (outcome: Result<
        u32,
        Error,
    >)
        requires
            old(self).well_formed(),
            plan_definition_accepted(title@, duration_days as nat, price as nat) ==> old(
                self,
            ).has_room(),
        ensures
            final(self).well_formed(),
            final(self)@ == old(self)@.after_create_plan(
                title@,
                duration_days as nat,
                price as nat,
            ),
            match outcome {
                Ok(id) => old(self)@.create_plan_outcome(
                    title@,
                    duration_days as nat,
                    price as nat,
                ) == Ok::<nat, Error>(id as nat),
                Err(error) => old(self)@.create_plan_outcome(
                    title@,
                    duration_days as nat,
                    price as nat,
                ) == Err::<nat, Error>(error),
            },
    {
        proof {
            lemma_create_plan_keeps_well_formed(
                self@,
                title@,
                duration_days as nat,
                price as nat,
            );
        }
        self.registry.create_plan(title, duration_days, price)
    }

    /// The plan with this identifier. An identifier that was never handed
    /// out gives `None`; that is an answer, not an error.
    pub fn get_plan(&self, plan_id: u32) -> (found: Option<&Plan>)
        requires
            self.well_formed(),
        ensures
            match found {
                Some(plan) => self@.get_plan(plan_id as nat) == Some(plan@),
                None => self@.get_plan(plan_id as nat) is None,
            },
    {
        self.registry.get_plan(plan_id)
    }

    /// The identifiers of all plans in the order of their creation, which is
    /// ascending; empty where there are no plans.
    pub fn list_plan_ids(&self) -> (ids: Vec<u32>)
        requires
            self.well_formed(),
        ensures
            ids@.len() == self@.list_plan_ids().len(),
            forall|i: int| 0 <= i < ids@.len() ==> ids@[i] as nat == self@.list_plan_ids()[i],
            forall|i: int| 0 <= i < ids@.len() ==> ids@[i] == i + 1,
    {
        self.registry.list_plan_ids()
    }

    /// Subscribes an address to a plan at time `now`, against the payment of
    /// `paid_amount`. An unknown plan is rejected; so is every amount other
    /// than the plan's price. An accepted request commits a record that
    /// starts at `now` and expires one plan duration later, in place of any
    /// record the address had, and returns it. A rejected request changes
    /// nothing.
    ///
    /// The expiry of the record to commit must be a representable timestamp;
    /// [`crate::clock::checked_expiry`] tells.
    pub fn subscribe(
        &mut self,
        subscriber: Address,
        plan_id: u32,
        paid_amount: u128,
        now: Timestamp,
    ) -> (outcome: Result<Subscription, Error>)
        requires
            old(self).well_formed(),
            old(self)@.subscribe_outcome(
                subscriber@,
                plan_id as nat,
                paid_amount as nat,
                now as nat,
            ) matches Ok(record) ==> record.expires_at <= u64::MAX,
        ensures
            final(self).well_formed(),
            final(self)@ == old(self)@.after_subscribe(
                subscriber@,
                plan_id as nat,
                paid_amount as nat,
                now as nat,
            ),
            match outcome {
                Ok(record) => old(self)@.subscribe_outcome(
                    subscriber@,
                    plan_id as nat,
                    paid_amount as nat,
                    now as nat,
                ) == Ok::<SubscriptionView, Error>(record@),
                Err(error) => old(self)@.subscribe_outcome(
                    subscriber@,
                    plan_id as nat,
                    paid_amount as nat,
                    now as nat,
                ) == Err::<SubscriptionView, Error>(error),
            },
    {
        proof {
            lemma_subscribe_keeps_well_formed(
                self@,
                subscriber@,
                plan_id as nat,
                paid_amount as nat,
                now as nat,
            );
        }
        self.ledger.subscribe(&self.registry, subscriber, plan_id, paid_amount, now)
    }

    /// The record stored for this address, exactly as it was committed;
    /// `None` where the address never subscribed. Expired records are not
    /// hidden: whether a record still counts is for the caller to say.
    pub fn get_subscription(&self, subscriber: &Address) -> (found: Option<Subscription>)
        requires
            self.well_formed(),
        ensures
            match found {
                Some(record) => self@.get_subscription(subscriber@) == Some(record@),
                None => self@.get_subscription(subscriber@) is None,
            },
    {
        self.ledger.get_subscription(subscriber)
    }

    /// Whether the address holds a record whose expiry lies after `now`.
    pub fn is_active(&self, subscriber: &Address, now: Timestamp) -> (active: bool)
        requires
            self.well_formed(),
        ensures
            active == self@.is_active(subscriber@, now as nat),
    {
        self.ledger.is_active(subscriber, now)
    }

    /// Where the address stands at `now`: without a record, active, or
    /// expired.
    pub fn status(&self, subscriber: &Address, now: Timestamp) -> (status: SubscriptionStatus)
        requires
            self.well_formed(),
        ensures
            status == self@.status(subscriber@, now as nat),
    {
        self.ledger.status(subscriber, now)
    }
}

} // verus!
