//! The contract as mathematics: plans in creation order, subscriptions by
//! subscriber address, and the two transitions that change them. The
//! executable types refine this model through their views.

use crate::clock::expiry_of;
use crate::error::Error;
use vstd::prelude::*;

verus! {

/// A plan as the registry holds it.
pub struct PlanView {
    pub id: nat,
    pub title: Seq<char>,
    pub duration_days: nat,
    pub price: nat,
}

/// A subscription as the ledger holds it.
pub struct SubscriptionView {
    pub subscriber: Seq<u8>,
    pub plan_id: nat,
    pub started_at: nat,
    pub expires_at: nat,
    pub paid_amount: nat,
}

/// The registry: every plan ever created, oldest first.
pub struct RegistryModel {
    pub plans: Seq<PlanView>,
}

/// The whole state: the registry and the ledger.
pub struct ContractModel {
    pub registry: RegistryModel,
    /// The current subscription of each address that has one.
    pub subscriptions: Map<Seq<u8>, SubscriptionView>,
}

/// Where an address stands at a given time. Only an accepted subscribe
/// request makes an address active; only the passing of time makes it
/// expired; and an expired address can subscribe again.
#[derive(Clone, Copy, Debug, PartialEq, Eq, Structural)]
pub enum SubscriptionStatus {
    /// The ledger has no record for the address.
    NoSubscription,
    /// The record's expiry lies ahead.
    Active,
    /// The record's expiry has been reached.
    Expired,
}

/// A request that may change the state.
pub enum Operation {
    CreatePlan { title: Seq<char>, duration_days: nat, price: nat },
    Subscribe { subscriber: Seq<u8>, plan_id: nat, paid_amount: nat, now: nat },
}

/// A plan definition is accepted when it has a title, lasts at least one day
/// and costs something.
pub open spec fn plan_definition_accepted(title: Seq<char>, duration_days: nat, price: nat) -> bool {
    title.len() > 0 && duration_days > 0 && price > 0
}

/// The payment gate takes the exact price and nothing else.
pub open spec fn payment_accepted(paid_amount: nat, required_price: nat) -> bool {
    paid_amount == required_price
}

impl RegistryModel {
    /// No plans.
    pub open spec fn empty() -> RegistryModel {
        RegistryModel { plans: Seq::empty() }
    }

    /// The identifier that the next accepted plan will get. Identifiers start
    /// at 1 and follow the order of creation.
    pub open spec fn next_plan_id(self) -> nat {
        self.plans.len() + 1
    }

    pub open spec fn has_plan(self, plan_id: nat) -> bool {
        1 <= plan_id <= self.plans.len()
    }

    pub open spec fn get_plan(self, plan_id: nat) -> Option<PlanView> {
        if self.has_plan(plan_id) {
            Some(self.plans[plan_id - 1])
        } else {
            None
        }
    }

    /// The identifiers of all plans, in creation order.
    pub open spec fn list_plan_ids(self) -> Seq<nat> {
        Seq::new(self.plans.len(), |i: int| self.plans[i].id)
    }

    /// What `create_plan` answers in this state.
    pub open spec fn create_plan_outcome(
        self,
        title: Seq<char>,
        duration_days: nat,
        price: nat,
    ) -> Result<nat, Error> {
        if plan_definition_accepted(title, duration_days, price) {
            Ok(self.next_plan_id())
        } else {
            Err(Error::InvalidArgument)
        }
    }

    /// The registry that `create_plan` leaves behind: one plan longer where
    /// the definition is accepted, unchanged where it is not.
    pub open spec fn after_create_plan(
        self,
        title: Seq<char>,
        duration_days: nat,
        price: nat,
    ) -> RegistryModel {
        if plan_definition_accepted(title, duration_days, price) {
            RegistryModel {
                plans: self.plans.push(
                    PlanView { id: self.next_plan_id(), title, duration_days, price },
                ),
            }
        } else {
            self
        }
    }

    /// Plan `i` of the registry carries identifier `i + 1` and an accepted
    /// definition.
    pub open spec fn well_formed(self) -> bool {
        forall|i: int|
            0 <= i < self.plans.len() ==> {
                &&& (#[trigger] self.plans[i]).id == i + 1
                &&& plan_definition_accepted(
                    self.plans[i].title,
                    self.plans[i].duration_days,
                    self.plans[i].price,
                )
            }
    }
}

impl ContractModel {
    /// No plans, no subscriptions.
    pub open spec fn empty() -> ContractModel {
        ContractModel { registry: RegistryModel::empty(), subscriptions: Map::empty() }
    }

    pub open spec fn get_plan(self, plan_id: nat) -> Option<PlanView> {
        self.registry.get_plan(plan_id)
    }

    pub open spec fn list_plan_ids(self) -> Seq<nat> {
        self.registry.list_plan_ids()
    }

    pub open spec fn get_subscription(self, subscriber: Seq<u8>) -> Option<SubscriptionView> {
        if self.subscriptions.dom().contains(subscriber) {
            Some(self.subscriptions[subscriber])
        } else {
            None
        }
    }

    /// A subscription is active until its expiry; an address without a record
    /// is never active.
    pub open spec fn is_active(self, subscriber: Seq<u8>, now: nat) -> bool {
        match self.get_subscription(subscriber) {
            Some(subscription) => now < subscription.expires_at,
            None => false,
        }
    }

    /// Where the address stands at `now`.
    pub open spec fn status(self, subscriber: Seq<u8>, now: nat) -> SubscriptionStatus {
        match self.get_subscription(subscriber) {
            None => SubscriptionStatus::NoSubscription,
            Some(subscription) => if now < subscription.expires_at {
                SubscriptionStatus::Active
            } else {
                SubscriptionStatus::Expired
            },
        }
    }

    /// What `create_plan` answers in this state.
    pub open spec fn create_plan_outcome(
        self,
        title: Seq<char>,
        duration_days: nat,
        price: nat,
    ) -> Result<nat, Error> {
        self.registry.create_plan_outcome(title, duration_days, price)
    }

    /// The state that `create_plan` leaves behind. The ledger is not touched.
    pub open spec fn after_create_plan(
        self,
        title: Seq<char>,
        duration_days: nat,
        price: nat,
    ) -> ContractModel {
        ContractModel {
            registry: self.registry.after_create_plan(title, duration_days, price),
            subscriptions: self.subscriptions,
        }
    }

    /// What `subscribe` answers in this state: the record it commits, or the
    /// reason for turning the request down. The plan is looked up first, the
    /// payment is checked second.
    pub open spec fn subscribe_outcome(
        self,
        subscriber: Seq<u8>,
        plan_id: nat,
        paid_amount: nat,
        now: nat,
    ) -> Result<SubscriptionView, Error> {
        match self.get_plan(plan_id) {
            None => Err(Error::PlanNotFound),
            Some(plan) => if payment_accepted(paid_amount, plan.price) {
                Ok(
                    SubscriptionView {
                        subscriber,
                        plan_id,
                        started_at: now,
                        expires_at: expiry_of(now, plan.duration_days),
                        paid_amount,
                    },
                )
            } else {
                Err(Error::InsufficientPayment)
            },
        }
    }

    /// The state that `subscribe` leaves behind: the subscriber's record is
    /// created or replaced on success, and nothing changes on failure.
    pub open spec fn after_subscribe(
        self,
        subscriber: Seq<u8>,
        plan_id: nat,
        paid_amount: nat,
        now: nat,
    ) -> ContractModel {
        match self.subscribe_outcome(subscriber, plan_id, paid_amount, now) {
            Ok(subscription) => ContractModel {
                registry: self.registry,
                subscriptions: self.subscriptions.insert(subscriber, subscription),
            },
            Err(_) => self,
        }
    }

    /// The state after one operation.
    pub open spec fn apply(self, operation: Operation) -> ContractModel {
        match operation {
            Operation::CreatePlan { title, duration_days, price } => self.after_create_plan(
                title,
                duration_days,
                price,
            ),
            Operation::Subscribe { subscriber, plan_id, paid_amount, now } => self.after_subscribe(
                subscriber,
                plan_id,
                paid_amount,
                now,
            ),
        }
    }

    /// The state after a series of operations, applied first to last.
    pub open spec fn run(self, operations: Seq<Operation>) -> ContractModel
        decreases operations.len(),
    {
        if operations.len() == 0 {
            self
        } else {
            self.run(operations.drop_last()).apply(operations.last())
        }
    }

    /// A record stored under an address belongs to that address, names a plan
    /// of the registry, was paid at that plan's price and runs for that plan's
    /// duration.
    pub open spec fn subscription_well_formed(self, subscriber: Seq<u8>) -> bool {
        let subscription = self.subscriptions[subscriber];
        &&& subscription.subscriber == subscriber
        &&& self.registry.has_plan(subscription.plan_id)
        &&& subscription.paid_amount == self.registry.plans[subscription.plan_id - 1].price
        &&& subscription.expires_at == expiry_of(
            subscription.started_at,
            self.registry.plans[subscription.plan_id - 1].duration_days,
        )
    }

    /// The invariant of the contract.
    pub open spec fn well_formed(self) -> bool {
        &&& self.registry.well_formed()
        &&& forall|subscriber: Seq<u8>| #[trigger]
            self.subscriptions.dom().contains(subscriber) ==> self.subscription_well_formed(
                subscriber,
            )
    }
}

} // verus!
