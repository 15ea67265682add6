//! Logical time. The contract never reads a clock of its own: every operation
//! that depends on time takes the current timestamp as an argument.

use vstd::prelude::*;

verus! {

/// Seconds since an epoch that the host chooses.
pub type Timestamp = u64;

/// Length of one day in the clock's unit.
pub const SECONDS_PER_DAY: u64 = 86_400;

/// The instant at which a subscription of `duration_days` days that starts at
/// `started_at` runs out.
pub open spec fn expiry_of(started_at: nat, duration_days: nat) -> nat {
    started_at + duration_days * (SECONDS_PER_DAY as nat)
}

/// Whether that instant can be held in a [`Timestamp`].
pub open spec fn expiry_fits(started_at: nat, duration_days: nat) -> bool {
    expiry_of(started_at, duration_days) <= u64::MAX
}

/// Computes [`expiry_of`] where it fits.
pub fn expiry(started_at: Timestamp, duration_days: u64) -> (expires_at: Timestamp)
    requires
        expiry_fits(started_at as nat, duration_days as nat),
    ensures
        expires_at == expiry_of(started_at as nat, duration_days as nat),
{
    started_at + duration_days * SECONDS_PER_DAY
}

/// Computes [`expiry_of`], or `None` where the result is past the last
/// representable timestamp.
pub fn checked_expiry(started_at: Timestamp, duration_days: u64) -> (expires_at: Option<Timestamp>)
    ensures
        expiry_fits(started_at as nat, duration_days as nat) ==> expires_at == Some(
            expiry_of(started_at as nat, duration_days as nat) as u64,
        ),
        !expiry_fits(started_at as nat, duration_days as nat) ==> expires_at is None,
{
    match duration_days.checked_mul(SECONDS_PER_DAY) {
        Some(span) => started_at.checked_add(span),
        None => None,
    }
}

} // verus!
