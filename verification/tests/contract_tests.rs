use subscription::address::Address;
use subscription::contract::SubscriptionContract;
use subscription::error::Error;
use subscription::ledger::Subscription;
use subscription::model::SubscriptionStatus;
use subscription::plan::Plan;

const T: u64 = 1_000_000;
const DAY: u64 = 86_400;

fn alice() -> Address {
    Address::new([1; 32])
}

fn bob() -> Address {
    Address::new([2; 32])
}

#[test]
fn created_ids_are_distinct_and_increasing() {
    let mut state = SubscriptionContract::new();
    let mut previous = 0;
    for round in 0..20u64 {
        let id = state.create_plan("Plan", round + 1, 100).unwrap();
        assert!(id > previous);
        assert_eq!(id as u64, round + 1);
        previous = id;
        // Operations in between do not disturb the numbering.
        let _ = state.subscribe(alice(), id, 100, T);
        let _ = state.create_plan("", 1, 1);
    }
}

#[test]
fn get_plan_returns_the_supplied_fields() {
    let mut state = SubscriptionContract::new();
    let weekly = state.create_plan("Weekly", 7, 10).unwrap();
    let monthly = state.create_plan("Monthly Plan", 30, 1_000_000_000_000_000).unwrap();
    assert_eq!(
        state.get_plan(weekly),
        Some(&Plan { id: 1, title: "Weekly".to_string(), duration_days: 7, price: 10 })
    );
    assert_eq!(
        state.get_plan(monthly),
        Some(&Plan {
            id: 2,
            title: "Monthly Plan".to_string(),
            duration_days: 30,
            price: 1_000_000_000_000_000,
        })
    );
    // Later operations leave earlier plans as they were.
    state.subscribe(alice(), weekly, 10, T).unwrap();
    state.create_plan("Yearly", 365, u128::MAX).unwrap();
    assert_eq!(state.get_plan(weekly).unwrap().title, "Weekly");
    assert_eq!(state.get_plan(3).unwrap().price, u128::MAX);
    assert_eq!(state.get_plan(3).unwrap().clone(), *state.get_plan(3).unwrap());
}

#[test]
fn invalid_plan_definitions_are_rejected() {
    let mut state = SubscriptionContract::new();
    assert_eq!(state.create_plan("", 30, 100), Err(Error::InvalidArgument));
    assert_eq!(state.create_plan("Monthly", 0, 100), Err(Error::InvalidArgument));
    assert_eq!(state.create_plan("Monthly", 30, 0), Err(Error::InvalidArgument));
    assert_eq!(state.create_plan("", 0, 0), Err(Error::InvalidArgument));
    assert_eq!(state.plan_count(), 0);
    assert_eq!(state.list_plan_ids(), Vec::<u32>::new());
    // A rejected definition has not used up an identifier.
    assert_eq!(state.create_plan("Monthly", 30, 100), Ok(1));
    assert_eq!(state.create_plan("", 30, 100), Err(Error::InvalidArgument));
    assert_eq!(state.create_plan("Weekly", 1, 1), Ok(2));
}

#[test]
fn subscribe_to_unknown_plan_is_rejected() {
    let mut state = SubscriptionContract::new();
    assert_eq!(state.subscribe(alice(), 1, 100, T), Err(Error::PlanNotFound));
    assert_eq!(state.subscribe(alice(), 0, 0, T), Err(Error::PlanNotFound));
    state.create_plan("Monthly", 30, 100).unwrap();
    // The plan is looked up before the payment is examined.
    assert_eq!(state.subscribe(alice(), 2, 100, T), Err(Error::PlanNotFound));
    assert_eq!(state.subscribe(alice(), 2, 0, T), Err(Error::PlanNotFound));
    assert_eq!(state.get_subscription(&alice()), None);
}

#[test]
fn mismatched_payment_leaves_prior_state() {
    let mut state = SubscriptionContract::new();
    let monthly = state.create_plan("Monthly", 30, 100).unwrap();
    let yearly = state.create_plan("Yearly", 365, 1000).unwrap();

    // No record before, none after.
    assert_eq!(state.subscribe(alice(), monthly, 99, T), Err(Error::InsufficientPayment));
    assert_eq!(state.subscribe(alice(), monthly, 101, T), Err(Error::InsufficientPayment));
    assert_eq!(state.subscribe(alice(), monthly, 0, T), Err(Error::InsufficientPayment));
    assert_eq!(state.subscribe(alice(), monthly, u128::MAX, T), Err(Error::InsufficientPayment));
    assert_eq!(state.get_subscription(&alice()), None);

    // A record before, the same record after.
    let committed = state.subscribe(alice(), monthly, 100, T).unwrap();
    assert_eq!(state.subscribe(alice(), yearly, 100, T + 5), Err(Error::InsufficientPayment));
    assert_eq!(state.subscribe(alice(), monthly, 1000, T + 5), Err(Error::InsufficientPayment));
    assert_eq!(state.get_subscription(&alice()), Some(committed));
}

#[test]
fn exact_payment_records_the_subscription() {
    let mut state = SubscriptionContract::new();
    let weekly = state.create_plan("Weekly", 7, 250).unwrap();
    let outcome = state.subscribe(bob(), weekly, 250, T);
    let expected = Subscription {
        subscriber: bob(),
        plan_id: weekly,
        started_at: 1_000_000,
        expires_at: 1_604_800,
        paid_amount: 250,
    };
    assert_eq!(outcome, Ok(expected));
    assert_eq!(state.get_subscription(&bob()), Some(expected));
    assert_eq!(state.get_subscription(&alice()), None);
}

#[test]
fn is_active_until_expiry() {
    let mut state = SubscriptionContract::new();
    let weekly = state.create_plan("Weekly", 7, 250).unwrap();
    assert!(!state.is_active(&alice(), T));
    let record = state.subscribe(alice(), weekly, 250, T).unwrap();
    assert_eq!(record.expires_at, T + 7 * DAY);
    assert!(state.is_active(&alice(), T));
    assert!(state.is_active(&alice(), T + 1));
    assert!(state.is_active(&alice(), T + 7 * DAY - 1));
    assert!(!state.is_active(&alice(), T + 7 * DAY));
    assert!(!state.is_active(&alice(), T + 7 * DAY + 1));
    assert!(!state.is_active(&alice(), u64::MAX));
    assert!(!state.is_active(&bob(), T));
    // The expired record is still there to be read.
    assert_eq!(state.get_subscription(&alice()), Some(record));
}

#[test]
fn is_active_looks_at_the_expiry_only() {
    let mut state = SubscriptionContract::new();
    let weekly = state.create_plan("Weekly", 7, 250).unwrap();
    state.subscribe(alice(), weekly, 250, T).unwrap();
    // A record exists and its expiry lies ahead.
    assert!(state.is_active(&alice(), T - 1));
    assert!(state.is_active(&alice(), 0));
}

#[test]
fn resubscribing_overwrites_the_previous_record() {
    let mut state = SubscriptionContract::new();
    let weekly = state.create_plan("Weekly", 7, 250).unwrap();
    let yearly = state.create_plan("Yearly", 365, 9000).unwrap();
    let first = state.subscribe(alice(), weekly, 250, T).unwrap();
    let other = state.subscribe(bob(), weekly, 250, T + 1).unwrap();

    // Renewal while the first record is still running.
    let second = state.subscribe(alice(), yearly, 9000, T + 100).unwrap();
    assert_ne!(first, second);
    assert_eq!(
        state.get_subscription(&alice()),
        Some(Subscription {
            subscriber: alice(),
            plan_id: yearly,
            started_at: T + 100,
            expires_at: T + 100 + 365 * DAY,
            paid_amount: 9000,
        })
    );
    assert_eq!(state.get_subscription(&bob()), Some(other));

    // And after it ran out.
    let third = state.subscribe(alice(), weekly, 250, T + 1000 * DAY).unwrap();
    assert_eq!(state.get_subscription(&alice()), Some(third));
    assert_eq!(third.expires_at, T + 1007 * DAY);
    assert_eq!(state.get_subscription(&bob()), Some(other));
}

#[test]
fn status_follows_the_state_machine() {
    let mut state = SubscriptionContract::new();
    let weekly = state.create_plan("Weekly", 7, 250).unwrap();
    assert_eq!(state.status(&alice(), T), SubscriptionStatus::NoSubscription);
    let _ = state.subscribe(alice(), weekly, 1, T);
    assert_eq!(state.status(&alice(), T), SubscriptionStatus::NoSubscription);
    state.subscribe(alice(), weekly, 250, T).unwrap();
    assert_eq!(state.status(&alice(), T), SubscriptionStatus::Active);
    assert_eq!(state.status(&alice(), T + 7 * DAY - 1), SubscriptionStatus::Active);
    assert_eq!(state.status(&alice(), T + 7 * DAY), SubscriptionStatus::Expired);
    assert_eq!(state.status(&bob(), T), SubscriptionStatus::NoSubscription);
    state.subscribe(alice(), weekly, 250, T + 8 * DAY).unwrap();
    assert_eq!(state.status(&alice(), T + 8 * DAY), SubscriptionStatus::Active);
}

#[test]
fn instances_are_independent() {
    let mut one = SubscriptionContract::new();
    let mut two = SubscriptionContract::new();
    assert_eq!(one.create_plan("Weekly", 7, 250), Ok(1));
    assert_eq!(two.create_plan("Monthly", 30, 900), Ok(1));
    one.subscribe(alice(), 1, 250, T).unwrap();
    assert_eq!(two.get_subscription(&alice()), None);
    assert_eq!(two.get_plan(1).unwrap().title, "Monthly");
    assert_eq!(one.get_plan(1).unwrap().title, "Weekly");
}

#[test]
fn many_subscribers_keep_their_own_records() {
    let mut state = SubscriptionContract::new();
    let weekly = state.create_plan("Weekly", 7, 3).unwrap();
    for n in 0..50u8 {
        let record = state.subscribe(Address::new([n; 32]), weekly, 3, T + n as u64).unwrap();
        assert_eq!(record.started_at, T + n as u64);
    }
    for n in 0..50u8 {
        let record = state.get_subscription(&Address::new([n; 32])).unwrap();
        assert_eq!(record.subscriber, Address::new([n; 32]));
        assert_eq!(record.started_at, T + n as u64);
        assert_eq!(record.expires_at, T + n as u64 + 7 * DAY);
    }
    assert_eq!(state.get_subscription(&Address::new([50; 32])), None);
}
