//! What holds of every state the contract can reach, proved over the model.

use crate::clock::expiry_of;
use crate::error::Error;
use crate::model::{ContractModel, Operation, PlanView, SubscriptionStatus, SubscriptionView};
use vstd::prelude::*;

verus! {

/// The empty contract satisfies the invariant.
pub proof fn lemma_empty_is_well_formed()
    ensures
        ContractModel::empty().well_formed(),
{
}

/// Creating a plan, accepted or not, keeps the invariant.
pub proof fn lemma_create_plan_keeps_well_formed(
    state: ContractModel,
    title: Seq<char>,
    duration_days: nat,
    price: nat,
)
    requires
        state.well_formed(),
    ensures
        state.after_create_plan(title, duration_days, price).well_formed(),
{
    let next = state.after_create_plan(title, duration_days, price);
    assert forall|subscriber: Seq<u8>| #[trigger]
        next.subscriptions.dom().contains(subscriber) implies next.subscription_well_formed(
        subscriber,
    ) by {
        assert(state.subscription_well_formed(subscriber));
    }
}

/// Subscribing, accepted or not, keeps the invariant.
pub proof fn lemma_subscribe_keeps_well_formed(
    state: ContractModel,
    subscriber: Seq<u8>,
    plan_id: nat,
    paid_amount: nat,
    now: nat,
)
    requires
        state.well_formed(),
    ensures
        state.after_subscribe(subscriber, plan_id, paid_amount, now).well_formed(),
{
    let next = state.after_subscribe(subscriber, plan_id, paid_amount, now);
    assert forall|other: Seq<u8>| #[trigger]
        next.subscriptions.dom().contains(other) implies next.subscription_well_formed(other) by {
        if other != subscriber {
            assert(state.subscription_well_formed(other));
        }
    }
}

/// No series of operations breaks the invariant.
pub proof fn lemma_run_keeps_well_formed(state: ContractModel, operations: Seq<Operation>)
    requires
        state.well_formed(),
    ensures
        state.run(operations).well_formed(),
    decreases operations.len(),
{
    if operations.len() > 0 {
        let before = state.run(operations.drop_last());
        lemma_run_keeps_well_formed(state, operations.drop_last());
        match operations.last() {
            Operation::CreatePlan { title, duration_days, price } => {
                lemma_create_plan_keeps_well_formed(before, title, duration_days, price);
            },
            Operation::Subscribe { subscriber, plan_id, paid_amount, now } => {
                lemma_subscribe_keeps_well_formed(before, subscriber, plan_id, paid_amount, now);
            },
        }
    }
}

/// Every state that operations lead to from the empty contract satisfies
/// the invariant.
pub proof fn lemma_reachable_states_are_well_formed(operations: Seq<Operation>)
    ensures
        ContractModel::empty().run(operations).well_formed(),
{
    lemma_empty_is_well_formed();
    lemma_run_keeps_well_formed(ContractModel::empty(), operations);
}

/// What the invariant says of a stored record: it is filed under its own
/// subscriber, its plan exists, the amount paid is that plan's price, and it
/// expires one plan duration after it started.
pub proof fn lemma_stored_record_matches_its_plan(state: ContractModel, subscriber: Seq<u8>)
    requires
        state.well_formed(),
        state.get_subscription(subscriber) is Some,
    ensures
        state.get_subscription(subscriber)->Some_0.subscriber == subscriber,
        state.get_plan(state.get_subscription(subscriber)->Some_0.plan_id) is Some,
        state.get_subscription(subscriber)->Some_0.paid_amount == state.get_plan(
            state.get_subscription(subscriber)->Some_0.plan_id,
        )->Some_0.price,
        state.get_subscription(subscriber)->Some_0.expires_at == expiry_of(
            state.get_subscription(subscriber)->Some_0.started_at,
            state.get_plan(
                state.get_subscription(subscriber)->Some_0.plan_id,
            )->Some_0.duration_days,
        ),
{
    assert(state.subscription_well_formed(subscriber));
}

/// Plans are never removed, renumbered or altered: whatever happens later,
/// every identifier keeps answering with the plan it was created with, and
/// the registry only grows.
pub proof fn lemma_plans_persist(state: ContractModel, operations: Seq<Operation>)
    ensures
        state.registry.plans.len() <= state.run(operations).registry.plans.len(),
        forall|plan_id: nat|
            state.registry.has_plan(plan_id) ==> #[trigger] state.run(operations).get_plan(plan_id)
                == state.get_plan(plan_id),
    decreases operations.len(),
{
    if operations.len() > 0 {
        lemma_plans_persist(state, operations.drop_last());
        let before = state.run(operations.drop_last());
        let after = state.run(operations);
        assert(after == before.apply(operations.last()));
        assert forall|plan_id: nat| state.registry.has_plan(plan_id) implies #[trigger] after.get_plan(
            plan_id,
        ) == state.get_plan(plan_id) by {
            assert(before.get_plan(plan_id) == state.get_plan(plan_id));
            assert(after.registry.plans[plan_id - 1] == before.registry.plans[plan_id - 1]);
        }
    }
}

/// Identifiers are handed out in strictly increasing order: a plan created
/// after another one, with any operations in between, gets the larger
/// identifier. Two accepted plans therefore never share an identifier.
pub proof fn lemma_plan_ids_strictly_increase(
    state: ContractModel,
    first_title: Seq<char>,
    first_duration_days: nat,
    first_price: nat,
    between: Seq<Operation>,
    second_title: Seq<char>,
    second_duration_days: nat,
    second_price: nat,
)
    requires
        state.create_plan_outcome(first_title, first_duration_days, first_price) is Ok,
        state.after_create_plan(first_title, first_duration_days, first_price).run(
            between,
        ).create_plan_outcome(second_title, second_duration_days, second_price) is Ok,
    ensures
        state.create_plan_outcome(first_title, first_duration_days, first_price)->Ok_0
            < state.after_create_plan(first_title, first_duration_days, first_price).run(
            between,
        ).create_plan_outcome(second_title, second_duration_days, second_price)->Ok_0,
{
    lemma_plans_persist(
        state.after_create_plan(first_title, first_duration_days, first_price),
        between,
    );
}

/// A plan that was accepted can be read back under the identifier it was
/// given, now and after any further operations, with exactly the title,
/// duration and price that were supplied.
pub proof fn lemma_created_plan_is_kept(
    state: ContractModel,
    title: Seq<char>,
    duration_days: nat,
    price: nat,
    afterwards: Seq<Operation>,
)
    requires
        state.create_plan_outcome(title, duration_days, price) is Ok,
    ensures
        state.after_create_plan(title, duration_days, price).run(afterwards).get_plan(
            state.create_plan_outcome(title, duration_days, price)->Ok_0,
        ) == Some(
            PlanView {
                id: state.create_plan_outcome(title, duration_days, price)->Ok_0,
                title,
                duration_days,
                price,
            },
        ),
{
    let created = state.after_create_plan(title, duration_days, price);
    let id = state.create_plan_outcome(title, duration_days, price)->Ok_0;
    assert(created.registry.has_plan(id));
    lemma_plans_persist(created, afterwards);
}

/// A rejected plan definition allocates no identifier and stores nothing.
pub proof fn lemma_rejected_plan_changes_nothing(
    state: ContractModel,
    title: Seq<char>,
    duration_days: nat,
    price: nat,
)
    requires
        title.len() == 0 || duration_days == 0 || price == 0,
    ensures
        state.create_plan_outcome(title, duration_days, price) == Err::<nat, Error>(
            Error::InvalidArgument,
        ),
        state.after_create_plan(title, duration_days, price) == state,
{
}

/// In a well-formed registry the identifiers, listed in creation order, are
/// 1, 2, 3 and so on: ascending and without repetition.
pub proof fn lemma_plan_ids_are_consecutive(state: ContractModel)
    requires
        state.well_formed(),
    ensures
        state.list_plan_ids().len() == state.registry.plans.len(),
        forall|i: int|
            0 <= i < state.registry.plans.len() ==> #[trigger] state.list_plan_ids()[i] == i + 1,
        forall|i: int, j: int|
            0 <= i < j < state.registry.plans.len() ==> state.list_plan_ids()[i]
                < state.list_plan_ids()[j],
{
}

/// A payment that differs from the price of an existing plan is turned down
/// as insufficient, and the ledger stays as it was: the subscriber's earlier
/// record, or the absence of one, is what a lookup still finds.
pub proof fn lemma_wrong_payment_changes_nothing(
    state: ContractModel,
    subscriber: Seq<u8>,
    plan_id: nat,
    paid_amount: nat,
    now: nat,
)
    requires
        state.registry.has_plan(plan_id),
        paid_amount != state.get_plan(plan_id)->Some_0.price,
    ensures
        state.subscribe_outcome(subscriber, plan_id, paid_amount, now) == Err::<
            SubscriptionView,
            Error,
        >(Error::InsufficientPayment),
        state.after_subscribe(subscriber, plan_id, paid_amount, now) == state,
        state.after_subscribe(subscriber, plan_id, paid_amount, now).get_subscription(subscriber)
            == state.get_subscription(subscriber),
{
}

/// Nobody subscribes for nothing: every plan of a well-formed registry has a
/// price, so a request that pays zero for an existing plan is turned down.
pub proof fn lemma_zero_payment_is_rejected(
    state: ContractModel,
    subscriber: Seq<u8>,
    plan_id: nat,
    now: nat,
)
    requires
        state.well_formed(),
        state.registry.has_plan(plan_id),
    ensures
        state.subscribe_outcome(subscriber, plan_id, 0, now) == Err::<SubscriptionView, Error>(
            Error::InsufficientPayment,
        ),
        state.after_subscribe(subscriber, plan_id, 0, now) == state,
{
    assert(state.registry.plans[plan_id - 1].price > 0);
}

/// A request for a plan that does not exist is turned down as such, whatever
/// was paid, and changes nothing.
pub proof fn lemma_unknown_plan_changes_nothing(
    state: ContractModel,
    subscriber: Seq<u8>,
    plan_id: nat,
    paid_amount: nat,
    now: nat,
)
    requires
        !state.registry.has_plan(plan_id),
    ensures
        state.subscribe_outcome(subscriber, plan_id, paid_amount, now) == Err::<
            SubscriptionView,
            Error,
        >(Error::PlanNotFound),
        state.after_subscribe(subscriber, plan_id, paid_amount, now) == state,
{
}

/// Paying the exact price of an existing plan succeeds, and a lookup of the
/// subscriber afterwards finds a record that starts now, expires one plan
/// duration later and shows the price as the amount paid.
pub proof fn lemma_exact_payment_is_recorded(
    state: ContractModel,
    subscriber: Seq<u8>,
    plan_id: nat,
    now: nat,
)
    requires
        state.registry.has_plan(plan_id),
    ensures
        state.subscribe_outcome(
            subscriber,
            plan_id,
            state.get_plan(plan_id)->Some_0.price,
            now,
        ) is Ok,
        state.after_subscribe(
            subscriber,
            plan_id,
            state.get_plan(plan_id)->Some_0.price,
            now,
        ).get_subscription(subscriber) == Some(
            SubscriptionView {
                subscriber,
                plan_id,
                started_at: now,
                expires_at: expiry_of(now, state.get_plan(plan_id)->Some_0.duration_days),
                paid_amount: state.get_plan(plan_id)->Some_0.price,
            },
        ),
{
}

/// Every stored subscription expires strictly after it starts.
pub proof fn lemma_expiry_follows_start(state: ContractModel, subscriber: Seq<u8>)
    requires
        state.well_formed(),
        state.get_subscription(subscriber) is Some,
    ensures
        state.get_subscription(subscriber)->Some_0.started_at < state.get_subscription(
            subscriber,
        )->Some_0.expires_at,
{
    let subscription = state.subscriptions[subscriber];
    assert(state.subscription_well_formed(subscriber));
    let plan = state.registry.plans[subscription.plan_id - 1];
    assert(plan.duration_days > 0);
}

/// From the start of a stored subscription onwards, the subscriber is active
/// exactly as long as the expiry has not been reached.
pub proof fn lemma_active_until_expiry(state: ContractModel, subscriber: Seq<u8>, now: nat)
    requires
        state.get_subscription(subscriber) is Some,
        state.get_subscription(subscriber)->Some_0.started_at <= now,
    ensures
        state.is_active(subscriber, now) <==> state.get_subscription(subscriber)->Some_0.started_at
            <= now < state.get_subscription(subscriber)->Some_0.expires_at,
{
}

/// An address without a record is not active at any time.
pub proof fn lemma_no_record_is_inactive(state: ContractModel, subscriber: Seq<u8>, now: nat)
    requires
        state.get_subscription(subscriber) is None,
    ensures
        !state.is_active(subscriber, now),
{
}

/// An address is active exactly where its status says so.
pub proof fn lemma_active_is_a_status(state: ContractModel, subscriber: Seq<u8>, now: nat)
    ensures
        state.is_active(subscriber, now) <==> state.status(subscriber, now)
            == SubscriptionStatus::Active,
{
}

/// An accepted request makes its subscriber active at the time of the
/// request, whatever the status was before.
pub proof fn lemma_subscribing_activates(
    state: ContractModel,
    subscriber: Seq<u8>,
    plan_id: nat,
    paid_amount: nat,
    now: nat,
)
    requires
        state.well_formed(),
        state.subscribe_outcome(subscriber, plan_id, paid_amount, now) is Ok,
    ensures
        state.after_subscribe(subscriber, plan_id, paid_amount, now).status(subscriber, now)
            == SubscriptionStatus::Active,
{
    let next = state.after_subscribe(subscriber, plan_id, paid_amount, now);
    lemma_subscribe_keeps_well_formed(state, subscriber, plan_id, paid_amount, now);
    lemma_expiry_follows_start(next, subscriber);
}

/// Without an accepted request of its own, an address changes status only
/// by running out of time: creating plans, rejected requests and the
/// requests of other addresses leave every record in place, so an address
/// without a record stays without one, an expired one stays expired, and an
/// active one is active until its expiry and expired from it on.
pub proof fn lemma_status_changes_only_with_time(
    state: ContractModel,
    operation: Operation,
    subscriber: Seq<u8>,
    earlier: nat,
    later: nat,
)
    requires
        earlier <= later,
        match operation {
            Operation::CreatePlan { .. } => true,
            Operation::Subscribe { subscriber: other, plan_id, paid_amount, now } => other
                != subscriber || state.subscribe_outcome(other, plan_id, paid_amount, now) is Err,
        },
    ensures
        state.apply(operation).get_subscription(subscriber) == state.get_subscription(subscriber),
        state.status(subscriber, earlier) == SubscriptionStatus::NoSubscription ==> state.apply(
            operation,
        ).status(subscriber, later) == SubscriptionStatus::NoSubscription,
        state.status(subscriber, earlier) == SubscriptionStatus::Expired ==> state.apply(
            operation,
        ).status(subscriber, later) == SubscriptionStatus::Expired,
        state.status(subscriber, earlier) == SubscriptionStatus::Active ==> state.apply(
            operation,
        ).status(subscriber, later) == if later < state.get_subscription(
            subscriber,
        )->Some_0.expires_at {
            SubscriptionStatus::Active
        } else {
            SubscriptionStatus::Expired
        },
{
}

/// Subscribing again replaces the earlier record whole: the state after two
/// accepted requests of one subscriber is the state that the second request
/// alone would have produced. Nothing of the first record is merged in.
pub proof fn lemma_resubscribe_overwrites(
    state: ContractModel,
    subscriber: Seq<u8>,
    first_plan: nat,
    first_paid: nat,
    first_now: nat,
    second_plan: nat,
    second_paid: nat,
    second_now: nat,
)
    requires
        state.after_subscribe(subscriber, first_plan, first_paid, first_now).subscribe_outcome(
            subscriber,
            second_plan,
            second_paid,
            second_now,
        ) is Ok,
    ensures
        state.after_subscribe(subscriber, first_plan, first_paid, first_now).after_subscribe(
            subscriber,
            second_plan,
            second_paid,
            second_now,
        ) == state.after_subscribe(subscriber, second_plan, second_paid, second_now),
        state.after_subscribe(subscriber, first_plan, first_paid, first_now).after_subscribe(
            subscriber,
            second_plan,
            second_paid,
            second_now,
        ).get_subscription(subscriber) == Some(
            state.subscribe_outcome(subscriber, second_plan, second_paid, second_now)->Ok_0,
        ),
{
    let first = state.after_subscribe(subscriber, first_plan, first_paid, first_now);
    let both = first.after_subscribe(subscriber, second_plan, second_paid, second_now);
    let direct = state.after_subscribe(subscriber, second_plan, second_paid, second_now);
    assert(first.registry == state.registry);
    assert(both.subscriptions =~= direct.subscriptions);
}

/// A subscribe request touches the record of its own subscriber only.
pub proof fn lemma_subscribe_leaves_others_alone(
    state: ContractModel,
    subscriber: Seq<u8>,
    plan_id: nat,
    paid_amount: nat,
    now: nat,
    other: Seq<u8>,
)
    requires
        other != subscriber,
    ensures
        state.after_subscribe(subscriber, plan_id, paid_amount, now).get_subscription(other)
            == state.get_subscription(other),
{
}

} // verus!
