//! The payment gate: a subscription is paid for exactly, or not at all.

use crate::error::Error;
use crate::model::payment_accepted;
use vstd::prelude::*;

verus! {

/// Accepts a payment that equals the required price and rejects every other
/// amount, smaller or larger, as insufficient.
pub fn validate(paid_amount: u128, required_price: u128) -> (verdict: Result<(), Error>)
    ensures
        payment_accepted(paid_amount as nat, required_price as nat) ==> verdict == Ok::<(), Error>(
            (),
        ),
        !payment_accepted(paid_amount as nat, required_price as nat) ==> verdict == Err::<
            (),
            Error,
        >(Error::InsufficientPayment),
{
    if paid_amount == required_price {
        Ok(())
    } else {
        Err(Error::InsufficientPayment)
    }
}

} // verus!
