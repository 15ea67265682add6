//! The ways in which an operation on the contract is turned down.

use vstd::prelude::*;

verus! {

/// Why the contract rejected a request. A rejected request changes nothing.
#[derive(Clone, Copy, Debug, PartialEq, Eq, Structural)]
pub enum Error {
    /// A plan definition with an empty title, a zero duration or a zero price.
    InvalidArgument,
    /// A subscribe request that names a plan the registry does not hold.
    PlanNotFound,
    /// A paid amount that differs from the plan's price.
    InsufficientPayment,
}

} // verus!
