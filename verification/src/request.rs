//! Typed calls on a deployed contract.

use crate::address::Address;
use vstd::prelude::*;

verus! {

/// What a client asks of the contract or of the network that hosts it.
#[derive(Debug, PartialEq, Eq)]
pub enum Request {
    /// Upload the contract's code as a new contract.
    Deploy,
    /// Replace the code of the deployed contract.
    Upgrade,
    /// Define a plan.
    CreatePlan { title: String, duration_days: u64, price: u128 },
    /// Subscribe the caller to a plan, paying `paid_amount`.
    Subscribe { plan_id: u32, paid_amount: u128 },
    /// Look a plan up.
    GetPlan { plan_id: u32 },
    /// Look a subscriber's record up.
    GetSubscription { subscriber: Address },
    /// List the identifiers of all plans.
    ListPlanIds,
}

} // verus!
