//! Subscriptions and the ledger that files one record per subscriber.

use crate::address::Address;
use crate::clock::{expiry, Timestamp};
use crate::error::Error;
use crate::model::{ContractModel, SubscriptionStatus, SubscriptionView};
use crate::payment::validate;
use crate::plan::PlanRegistry;
use vstd::prelude::*;

verus! {

/// The record that binds a subscriber to a plan for a bounded time.
#[derive(Clone, Copy, Debug, PartialEq, Eq)]
pub struct Subscription {
    pub subscriber: Address,
    pub plan_id: u32,
    pub started_at: Timestamp,
    pub expires_at: Timestamp,
    pub paid_amount: u128,
}

impl View for Subscription {
    type V = SubscriptionView;

    open spec fn view(&self) -> SubscriptionView {
        SubscriptionView {
            subscriber: self.subscriber@,
            plan_id: self.plan_id as nat,
            started_at: self.started_at as nat,
            expires_at: self.expires_at as nat,
            paid_amount: self.paid_amount as nat,
        }
    }
}

/// The map that a list of records stands for: each record filed under its
/// subscriber, a later record replacing an earlier one.
spec fn records_by_subscriber(records: Seq<Subscription>) -> Map<
    Seq<u8>,
    SubscriptionView,
>
    decreases records.len(),
{
    if records.len() == 0 {
        Map::empty()
    } else {
        records_by_subscriber(records.drop_last()).insert(
            records.last().subscriber@,
            records.last()@,
        )
    }
}

/// No two records of the list belong to one subscriber.
spec fn subscribers_distinct(records: Seq<Subscription>) -> bool {
    forall|i: int, j: int|
        0 <= i < j < records.len() ==> (#[trigger] records[i]).subscriber@ != (
        #[trigger] records[j]).subscriber@
}

/// A subscriber without a record in the list has no entry in its map.
proof fn lemma_absent_subscriber(records: Seq<Subscription>, subscriber: Seq<u8>)
    requires
        forall|i: int| 0 <= i < records.len() ==> (#[trigger] records[i]).subscriber@ != subscriber,
    ensures
        !records_by_subscriber(records).dom().contains(subscriber),
    decreases records.len(),
{
    if records.len() > 0 {
        let earlier = records.drop_last();
        assert forall|i: int| 0 <= i < earlier.len() implies (#[trigger] earlier[i]).subscriber@
            != subscriber by {
            assert(earlier[i] == records[i]);
        }
        lemma_absent_subscriber(earlier, subscriber);
    }
}

/// With distinct subscribers, the map answers for a subscriber with the one
/// record of the list that is theirs.
proof fn lemma_present_subscriber(records: Seq<Subscription>, at: int)
    requires
        subscribers_distinct(records),
        0 <= at < records.len(),
    ensures
        records_by_subscriber(records).dom().contains(records[at].subscriber@),
        records_by_subscriber(records)[records[at].subscriber@] == records[at]@,
    decreases records.len(),
{
    let earlier = records.drop_last();
    if at < records.len() - 1 {
        assert(earlier[at] == records[at]);
        assert forall|i: int, j: int| 0 <= i < j < earlier.len() implies (
        #[trigger] earlier[i]).subscriber@ != (#[trigger] earlier[j]).subscriber@ by {
            assert(earlier[i] == records[i]);
            assert(earlier[j] == records[j]);
        }
        lemma_present_subscriber(earlier, at);
        assert(records[at].subscriber@ != records[records.len() - 1].subscriber@);
    }
}

/// Replacing a record by another of the same subscriber replaces that
/// subscriber's entry in the map and nothing else.
proof fn lemma_replaced_record(records: Seq<Subscription>, at: int, record: Subscription)
    requires
        0 <= at < records.len(),
        records[at].subscriber@ == record.subscriber@,
        subscribers_distinct(records),
    ensures
        subscribers_distinct(records.update(at, record)),
        records_by_subscriber(records.update(at, record)) == records_by_subscriber(records).insert(
            record.subscriber@,
            record@,
        ),
    decreases records.len(),
{
    let updated = records.update(at, record);
    assert forall|i: int, j: int| 0 <= i < j < updated.len() implies (
    #[trigger] updated[i]).subscriber@ != (#[trigger] updated[j]).subscriber@ by {
        assert(records[i].subscriber@ != records[j].subscriber@);
    }
    let earlier = records.drop_last();
    if at == records.len() - 1 {
        assert(updated.drop_last() =~= earlier);
        assert(records_by_subscriber(updated) =~= records_by_subscriber(records).insert(
            record.subscriber@,
            record@,
        ));
    } else {
        assert forall|i: int, j: int| 0 <= i < j < earlier.len() implies (
        #[trigger] earlier[i]).subscriber@ != (#[trigger] earlier[j]).subscriber@ by {
            assert(earlier[i] == records[i]);
            assert(earlier[j] == records[j]);
        }
        lemma_replaced_record(earlier, at, record);
        assert(updated.drop_last() =~= earlier.update(at, record));
        assert(updated.last() == records.last());
        assert(records[at].subscriber@ != records[records.len() - 1].subscriber@);
        assert(records_by_subscriber(updated) =~= records_by_subscriber(records).insert(
            record.subscriber@,
            record@,
        ));
    }
}

/// Appending the record of a new subscriber adds their entry to the map.
proof fn lemma_appended_record(records: Seq<Subscription>, record: Subscription)
    requires
        subscribers_distinct(records),
        forall|i: int|
            0 <= i < records.len() ==> (#[trigger] records[i]).subscriber@ != record.subscriber@,
    ensures
        subscribers_distinct(records.push(record)),
        records_by_subscriber(records.push(record)) == records_by_subscriber(records).insert(
            record.subscriber@,
            record@,
        ),
{
    let extended = records.push(record);
    assert(extended.drop_last() =~= records);
    assert forall|i: int, j: int| 0 <= i < j < extended.len() implies (
    #[trigger] extended[i]).subscriber@ != (#[trigger] extended[j]).subscriber@ by {
        if j < records.len() {
            assert(records[i].subscriber@ != records[j].subscriber@);
        } else {
            assert(extended[i] == records[i]);
        }
    }
}

/// The current subscription of every address that has one.
pub struct SubscriptionLedger {
    records: Vec<Subscription>,
}

impl View for SubscriptionLedger {
    type V = Map<Seq<u8>, SubscriptionView>;

    closed spec fn view(&self) -> Map<Seq<u8>, SubscriptionView> {
        records_by_subscriber(self.records@)
    }
}

impl SubscriptionLedger {
    /// The ledger's own invariant: one record per subscriber.
    pub closed spec fn well_formed(&self) -> bool {
        subscribers_distinct(self.records@)
    }

    /// The contract state that this ledger forms with a registry.
    pub open spec fn with_registry(&self, registry: &PlanRegistry) -> ContractModel {
        ContractModel { registry: registry@, subscriptions: self@ }
    }

    /// A ledger without records.
    pub fn new() -> (ledger: SubscriptionLedger)
        ensures
            ledger.well_formed(),
            ledger@ == Map::<Seq<u8>, SubscriptionView>::empty(),
    {
        SubscriptionLedger { records: Vec::new() }
    }

    /// Where the subscriber's record lies, if there is one.
    fn position(&self, subscriber: &Address) -> (at: Option<usize>)
        ensures
            match at {
                Some(i) => i < self.records@.len() && self.records@[i as int].subscriber@
                    == subscriber@,
                None => forall|i: int|
                    0 <= i < self.records@.len() ==> (#[trigger] self.records@[i]).subscriber@
                        != subscriber@,
            },
    {
        let mut i: usize = 0;
        while i < self.records.len()
            invariant
                i <= self.records@.len(),
                forall|j: int|
                    0 <= j < i ==> (#[trigger] self.records@[j]).subscriber@ != subscriber@,
            decreases self.records@.len() - i,
        {
            if self.records[i].subscriber == *subscriber {
                return Some(i);
            }
            i += 1;
        }
        None
    }

    /// The record stored for this address, exactly as it was committed. An
    /// expired record is returned like any other.
    pub fn get_subscription(&self, subscriber: &Address) -> (found: Option<Subscription>)
        requires
            self.well_formed(),
        ensures
            match found {
                Some(record) => self@.dom().contains(subscriber@) && self@[subscriber@] == record@,
                None => !self@.dom().contains(subscriber@),
            },
    {
        match self.position(subscriber) {
            Some(i) => {
                proof {
                    lemma_present_subscriber(self.records@, i as int);
                }
                Some(self.records[i])
            },
            None => {
                proof {
                    lemma_absent_subscriber(self.records@, subscriber@);
                }
                None
            },
        }
    }

    /// Whether the address holds a subscription that has not run out at `now`.
    pub fn is_active(&self, subscriber: &Address, now: Timestamp) -> (active: bool)
        requires
            self.well_formed(),
        ensures
            active == (self@.dom().contains(subscriber@) && now < self@[subscriber@].expires_at),
    {
        match self.get_subscription(subscriber) {
            Some(record) => now < record.expires_at,
            None => false,
        }
    }

    /// Where the address stands at `now`: without a record, active, or
    /// expired.
    pub fn status(&self, subscriber: &Address, now: Timestamp) -> (status: SubscriptionStatus)
        requires
            self.well_formed(),
        ensures
            status == if !self@.dom().contains(subscriber@) {
                SubscriptionStatus::NoSubscription
            } else if now < self@[subscriber@].expires_at {
                SubscriptionStatus::Active
            } else {
                SubscriptionStatus::Expired
            },
    {
        match self.get_subscription(subscriber) {
            None => SubscriptionStatus::NoSubscription,
            Some(record) => if now < record.expires_at {
                SubscriptionStatus::Active
            } else {
                SubscriptionStatus::Expired
            },
        }
    }

    /// Files a record under its subscriber, in place of any earlier one.
    fn commit(&mut self, record: Subscription)
        requires
            old(self).well_formed(),
        ensures
            final(self).well_formed(),
            final(self)@ == old(self)@.insert(record.subscriber@, record@),
    {
        match self.position(&record.subscriber) {
            Some(i) => {
                proof {
                    lemma_replaced_record(self.records@, i as int, record);
                }
                self.records[i] = record;
            },
            None => {
                proof {
                    lemma_appended_record(self.records@, record);
                }
                self.records.push(record);
            },
        }
    }

    /// Subscribes an address to a plan of the registry. The plan is looked up
    /// first: an unknown identifier is rejected. The payment gate comes
    /// second: an amount other than the plan's price is rejected. Only then
    /// is the record written, starting at `now` and running for the plan's
    /// duration; it replaces any record the address had. A rejected request
    /// leaves the ledger as it was.
    pub fn subscribe(
        &mut self,
        registry: &PlanRegistry,
        subscriber: Address,
        plan_id: u32,
        paid_amount: u128,
        now: Timestamp,
    ) -> (outcome: Result<Subscription, Error>)
        requires
            old(self).well_formed(),
            registry.well_formed(),
            old(self).with_registry(registry).subscribe_outcome(
                subscriber@,
                plan_id as nat,
                paid_amount as nat,
                now as nat,
            ) matches Ok(record) ==> record.expires_at <= u64::MAX,
        ensures
            final(self).well_formed(),
            final(self).with_registry(registry) == old(self).with_registry(
                registry,
            ).after_subscribe(subscriber@, plan_id as nat, paid_amount as nat, now as nat),
            match outcome {
                Ok(record) => old(self).with_registry(registry).subscribe_outcome(
                    subscriber@,
                    plan_id as nat,
                    paid_amount as nat,
                    now as nat,
                ) == Ok::<SubscriptionView, Error>(record@),
                Err(error) => old(self).with_registry(registry).subscribe_outcome(
                    subscriber@,
                    plan_id as nat,
                    paid_amount as nat,
                    now as nat,
                ) == Err::<SubscriptionView, Error>(error),
            },
    {
        let plan = match registry.get_plan(plan_id) {
            Some(plan) => plan,
            None => {
                return Err(Error::PlanNotFound);
            },
        };
        match validate(paid_amount, plan.price) {
            Ok(()) => {},
            Err(error) => {
                return Err(error);
            },
        }
        let expires_at = expiry(now, plan.duration_days);
        let record = Subscription { subscriber, plan_id, started_at: now, expires_at, paid_amount };
        self.commit(record);
        Ok(record)
    }
}

} // verus!
