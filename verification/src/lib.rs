//! A registry of subscription plans and a ledger of per-address subscriptions,
//! gated by exact payment and time-based expiry.
//!
//! [`contract::SubscriptionContract`] is the state object: administrators
//! define plans, users subscribe by paying a plan's exact price, and anyone
//! can ask whether an address holds a subscription that has not run out.
//! [`model`] says what each operation means, [`theorems`] what follows, and
//! the executable types are proved to do what the model says.
//!
//! [`cli`] and [`request`] describe the commands of a command-line client and
//! the typed calls they stand for; [`address`] reads and writes account
//! addresses in bech32.

pub mod address;
pub mod cli;
pub mod clock;
pub mod contract;
pub mod error;
pub mod ledger;
pub mod model;
pub mod payment;
pub mod plan;
pub mod request;
pub mod theorems;
