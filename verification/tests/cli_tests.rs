use subscription::address::{Address, InvalidAddress};
use subscription::cli::{
    GetPlanArgs, InteractCli, InteractCliCommand, SubscriptionAddressArgs, SubscriptionArgs,
    SubscriptionPlanArgs,
};
use subscription::request::Request;

#[test]
fn default_arguments_are_empty() {
    assert_eq!(InteractCli::default(), InteractCli { command: None });
    assert_eq!(SubscriptionArgs::default(), SubscriptionArgs { amount: 0, id: 0 });
    assert_eq!(GetPlanArgs::default(), GetPlanArgs { id: 0 });
    assert_eq!(
        SubscriptionPlanArgs::default(),
        SubscriptionPlanArgs { title: String::new(), duration_days: 0, price: 0 }
    );
    assert_eq!(
        SubscriptionAddressArgs::default(),
        SubscriptionAddressArgs { address: String::new() }
    );
}

#[test]
fn commands_clone_to_equal_commands() {
    let commands = vec![
        InteractCliCommand::Deploy,
        InteractCliCommand::Upgrade,
        InteractCliCommand::AddSubscriptionPlan(SubscriptionPlanArgs {
            title: "Monthly Plan".to_string(),
            duration_days: 30,
            price: 1_000_000_000_000_000,
        }),
        InteractCliCommand::AddSubscription(SubscriptionArgs { amount: 5, id: 2 }),
        InteractCliCommand::GetPlan(GetPlanArgs { id: 3 }),
        InteractCliCommand::GetSubscription(SubscriptionAddressArgs {
            address: "erd1".to_string(),
        }),
        InteractCliCommand::GetAllPlanIDs,
    ];
    for command in &commands {
        assert_eq!(&command.clone(), command);
    }
    assert_ne!(commands[0], commands[1]);
}

#[test]
fn commands_become_requests() {
    assert_eq!(InteractCliCommand::Deploy.to_request(), Ok(Request::Deploy));
    assert_eq!(InteractCliCommand::Upgrade.to_request(), Ok(Request::Upgrade));
    assert_eq!(InteractCliCommand::GetAllPlanIDs.to_request(), Ok(Request::ListPlanIds));
    assert_eq!(
        InteractCliCommand::AddSubscriptionPlan(SubscriptionPlanArgs {
            title: "Monthly Plan".to_string(),
            duration_days: 30,
            price: 1_000_000_000_000_000,
        })
        .to_request(),
        Ok(Request::CreatePlan {
            title: "Monthly Plan".to_string(),
            duration_days: 30,
            price: 1_000_000_000_000_000,
        })
    );
    assert_eq!(
        InteractCliCommand::AddSubscription(SubscriptionArgs { amount: 77, id: 4 }).to_request(),
        Ok(Request::Subscribe { plan_id: 4, paid_amount: 77 })
    );
    assert_eq!(
        InteractCliCommand::GetPlan(GetPlanArgs { id: 9 }).to_request(),
        Ok(Request::GetPlan { plan_id: 9 })
    );
}

#[test]
fn subscription_lookup_parses_the_address() {
    let command = InteractCliCommand::GetSubscription(SubscriptionAddressArgs {
        address: "erd1qqqqqqqqqqqqqqqqqqqqqqqqqqqqqqqqqqqqqqqqqqqqqqqqqqqq6gq4hu".to_string(),
    });
    assert_eq!(
        command.to_request(),
        Ok(Request::GetSubscription { subscriber: Address::new([0; 32]) })
    );
    let broken = InteractCliCommand::GetSubscription(SubscriptionAddressArgs {
        address: "student".to_string(),
    });
    assert_eq!(broken.to_request(), Err(InvalidAddress));
    assert_eq!(
        InteractCliCommand::GetSubscription(SubscriptionAddressArgs::default()).to_request(),
        Err(InvalidAddress)
    );
}

#[test]
fn command_line_without_command_asks_nothing() {
    assert_eq!(InteractCli::default().to_request(), Ok(None));
    assert_eq!(
        InteractCli { command: Some(InteractCliCommand::Deploy) }.to_request(),
        Ok(Some(Request::Deploy))
    );
    assert_eq!(
        InteractCli {
            command: Some(InteractCliCommand::GetSubscription(SubscriptionAddressArgs {
                address: "x".to_string(),
            })),
        }
        .to_request(),
        Err(InvalidAddress)
    );
}
