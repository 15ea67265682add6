//! The commands of the command-line client and their arguments, as plain
//! data, and the typed request that each command stands for.

use crate::address::{bech32_payload, Address, InvalidAddress};
use crate::request::Request;
use vstd::prelude::*;

verus! {

/// Arguments of `add-sub`: the amount to pay and the plan to subscribe to.
#[derive(Debug, PartialEq, Eq)]
pub struct SubscriptionArgs {
    pub amount: u128,
    pub id: u32,
}

/// Arguments of `plan`: the identifier to look up.
#[derive(Debug, PartialEq, Eq)]
pub struct GetPlanArgs {
    pub id: u32,
}

/// Arguments of `add-plan`: the definition of the new plan.
#[derive(Debug, PartialEq, Eq)]
pub struct SubscriptionPlanArgs {
    pub title: String,
    pub duration_days: u64,
    pub price: u128,
}

/// Arguments of `sub`: the subscriber's address in bech32.
#[derive(Debug, PartialEq, Eq)]
pub struct SubscriptionAddressArgs {
    pub address: String,
}

/// One command of the client.
#[derive(Debug, PartialEq, Eq)]
pub enum InteractCliCommand {
    Deploy,
    Upgrade,
    AddSubscriptionPlan(SubscriptionPlanArgs),
    AddSubscription(SubscriptionArgs),
    GetPlan(GetPlanArgs),
    GetSubscription(SubscriptionAddressArgs),
    GetAllPlanIDs,
}

/// A parsed command line: one command, or none.
#[derive(Debug, PartialEq, Eq)]
pub struct InteractCli {
    pub command: Option<InteractCliCommand>,
}

impl Clone for SubscriptionArgs {
    fn clone(&self) -> (copy: SubscriptionArgs)
        ensures
            copy == *self,
    {
        SubscriptionArgs { amount: self.amount, id: self.id }
    }
}

impl Default for SubscriptionArgs {
    fn default() -> (args: SubscriptionArgs)
        ensures
            args == (SubscriptionArgs { amount: 0, id: 0 }),
    {
        SubscriptionArgs { amount: 0, id: 0 }
    }
}

impl Clone for GetPlanArgs {
    fn clone(&self) -> (copy: GetPlanArgs)
        ensures
            copy == *self,
    {
        GetPlanArgs { id: self.id }
    }
}

impl Default for GetPlanArgs {
    fn default() -> (args: GetPlanArgs)
        ensures
            args == (GetPlanArgs { id: 0 }),
    {
        GetPlanArgs { id: 0 }
    }
}

impl Clone for SubscriptionPlanArgs {
    fn clone(&self) -> (copy: SubscriptionPlanArgs)
        ensures
            copy == *self,
    {
        SubscriptionPlanArgs {
            title: self.title.clone(),
            duration_days: self.duration_days,
            price: self.price,
        }
    }
}

impl Default for SubscriptionPlanArgs {
    fn default() -> (args: SubscriptionPlanArgs)
        ensures
            args.title@.len() == 0,
            args.duration_days == 0,
            args.price == 0,
    {
        SubscriptionPlanArgs { title: String::new(), duration_days: 0, price: 0 }
    }
}

impl Clone for SubscriptionAddressArgs {
    fn clone(&self) -> (copy: SubscriptionAddressArgs)
        ensures
            copy == *self,
    {
        SubscriptionAddressArgs { address: self.address.clone() }
    }
}

impl Default for SubscriptionAddressArgs {
    fn default() -> (args: SubscriptionAddressArgs)
        ensures
            args.address@.len() == 0,
    {
        SubscriptionAddressArgs { address: String::new() }
    }
}

impl Clone for InteractCliCommand {
    fn clone(&self) -> (copy: InteractCliCommand)
        ensures
            copy == *self,
    {
        match self {
            InteractCliCommand::Deploy => InteractCliCommand::Deploy,
            InteractCliCommand::Upgrade => InteractCliCommand::Upgrade,
            InteractCliCommand::AddSubscriptionPlan(args) => InteractCliCommand::AddSubscriptionPlan(
                args.clone(),
            ),
            InteractCliCommand::AddSubscription(args) => InteractCliCommand::AddSubscription(
                args.clone(),
            ),
            InteractCliCommand::GetPlan(args) => InteractCliCommand::GetPlan(args.clone()),
            InteractCliCommand::GetSubscription(args) => InteractCliCommand::GetSubscription(
                args.clone(),
            ),
            InteractCliCommand::GetAllPlanIDs => InteractCliCommand::GetAllPlanIDs,
        }
    }
}

impl Default for InteractCli {
    fn default() -> (cli: InteractCli)
        ensures
            cli.command is None,
    {
        InteractCli { command: None }
    }
}

impl InteractCliCommand {
    /// Whether `request` is the typed call this command stands for, or the
    /// refusal that it stands for none. Every command but one carries its
    /// arguments over unchanged. The lookup of a subscription carries an
    /// address as text: it stands for a request where the text is the bech32
    /// form of 32 bytes, which are the subscriber's address, and is refused
    /// where it is not.
    pub open spec fn stands_for(self, request: Result<Request, InvalidAddress>) -> bool {
        match self {
            InteractCliCommand::Deploy => request == Ok::<Request, InvalidAddress>(Request::Deploy),
            InteractCliCommand::Upgrade => request == Ok::<Request, InvalidAddress>(
                Request::Upgrade,
            ),
            InteractCliCommand::AddSubscriptionPlan(args) => request == Ok::<
                Request,
                InvalidAddress,
            >(
                Request::CreatePlan {
                    title: args.title,
                    duration_days: args.duration_days,
                    price: args.price,
                },
            ),
            InteractCliCommand::AddSubscription(args) => request == Ok::<Request, InvalidAddress>(
                Request::Subscribe { plan_id: args.id, paid_amount: args.amount },
            ),
            InteractCliCommand::GetPlan(args) => request == Ok::<Request, InvalidAddress>(
                Request::GetPlan { plan_id: args.id },
            ),
            InteractCliCommand::GetSubscription(args) => match bech32_payload(args.address@) {
                Some(bytes) => request matches Ok(Request::GetSubscription { subscriber })
                    && subscriber@ == bytes,
                None => request == Err::<Request, InvalidAddress>(InvalidAddress),
            },
            InteractCliCommand::GetAllPlanIDs => request == Ok::<Request, InvalidAddress>(
                Request::ListPlanIds,
            ),
        }
    }

    /// The typed call that this command asks for.
    pub fn to_request(&self) -> (request: Result<Request, InvalidAddress>)
        ensures
            self.stands_for(request),
    {
        match self {
            InteractCliCommand::Deploy => Ok(Request::Deploy),
            InteractCliCommand::Upgrade => Ok(Request::Upgrade),
            InteractCliCommand::AddSubscriptionPlan(args) => Ok(
                Request::CreatePlan {
                    title: args.title.clone(),
                    duration_days: args.duration_days,
                    price: args.price,
                },
            ),
            InteractCliCommand::AddSubscription(args) => Ok(
                Request::Subscribe { plan_id: args.id, paid_amount: args.amount },
            ),
            InteractCliCommand::GetPlan(args) => Ok(Request::GetPlan { plan_id: args.id }),
            InteractCliCommand::GetSubscription(args) => match Address::from_bech32(
                args.address.as_str(),
            ) {
                Ok(subscriber) => Ok(Request::GetSubscription { subscriber }),
                Err(refusal) => Err(refusal),
            },
            InteractCliCommand::GetAllPlanIDs => Ok(Request::ListPlanIds),
        }
    }
}

impl InteractCli {
    /// The typed call that the command line asks for; `None` where it names
    /// no command.
    pub fn to_request(&self) -> (request: Result<Option<Request>, InvalidAddress>)
        ensures
            match (self.command, request) {
                (None, Ok(None)) => true,
                (Some(command), Ok(Some(call))) => command.stands_for(Ok(call)),
                (Some(command), Err(refusal)) => command.stands_for(Err(refusal)),
                _ => false,
            },
    {
        match &self.command {
            Some(command) => match command.to_request() {
                Ok(call) => Ok(Some(call)),
                Err(refusal) => Err(refusal),
            },
            None => Ok(None),
        }
    }
}

} // verus!
