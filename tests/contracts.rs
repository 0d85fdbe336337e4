use account_contracts::account::AccountId;
use account_contracts::action::{Action, DeferredAction};
use account_contracts::context::InvocationContext;
use account_contracts::exec::{Error as ExecError, Executor};
use account_contracts::user_factory::{Error as FactoryError, UserFactory, DEFAULT_MIN_DEPOSIT};

fn id(s: &str) -> AccountId {
    AccountId::parse(s).unwrap()
}

fn context(current: &str, deposit: u128, gas: u64) -> InvocationContext {
    InvocationContext {
        current_account: id(current),
        signer_public_key: vec![0, 7, 7, 7],
        attached_deposit: deposit,
        prepaid_gas: gas,
    }
}

#[test]
fn execute_on_current_account_is_refused() {
    let ctx = context("app", 0, 300);
    let r = Executor {}.execute(&ctx, id("app"), "x".to_string(), "{}".to_string());
    assert_eq!(r, Err(ExecError::CallCurrentAccount));
}

#[test]
fn execute_forwards_a_third_of_the_budget() {
    let ctx = context("app", 0, 300);
    let plan = Executor {}
        .execute(&ctx, id("other"), "x".to_string(), "{}".to_string())
        .unwrap();
    assert_eq!(plan.receiver_id.as_str(), "other");
    assert_eq!(
        plan.actions,
        vec![Action::FunctionCall {
            method_name: "x".to_string(),
            args: b"{}".to_vec(),
            deposit: 0,
            gas: 100,
        }]
    );
}

#[test]
fn execute_rounds_the_budget_down() {
    let ctx = context("app", 0, 301);
    let plan = Executor {}.execute(&ctx, id("other"), "m".to_string(), String::new()).unwrap();
    assert_eq!(
        plan.actions,
        vec![Action::FunctionCall { method_name: "m".to_string(), args: vec![], deposit: 0, gas: 100 }]
    );
    let ctx = context("app", 0, 2);
    let plan = Executor {}.execute(&ctx, id("other"), "m".to_string(), String::new()).unwrap();
    assert_eq!(
        plan.actions,
        vec![Action::FunctionCall { method_name: "m".to_string(), args: vec![], deposit: 0, gas: 0 }]
    );
}

#[test]
fn execute_forwards_the_whole_deposit_and_payload() {
    let ctx = context("app.near", 12_345, 90);
    let plan = Executor {}
        .execute(&ctx, id("token.near"), "ft_transfer".to_string(), "{\"a\":\"é\"}".to_string())
        .unwrap();
    assert_eq!(
        plan,
        DeferredAction {
            receiver_id: id("token.near"),
            actions: vec![Action::FunctionCall {
                method_name: "ft_transfer".to_string(),
                args: "{\"a\":\"é\"}".as_bytes().to_vec(),
                deposit: 12_345,
                gas: 30,
            }],
        }
    );
}

#[test]
fn execute_on_a_subaccount_of_current_is_allowed() {
    let ctx = context("app", 1, 3);
    let plan = Executor {}.execute(&ctx, id("sub.app"), "f".to_string(), String::new()).unwrap();
    assert_eq!(plan.receiver_id.as_str(), "sub.app");
    assert_eq!(plan.actions.len(), 1);
}

#[test]
fn execute_twice_schedules_twice() {
    let mut executor = Executor {};
    let first_ctx = context("app", 5, 30);
    let second_ctx = context("app", 9, 60);
    let first = executor.execute(&first_ctx, id("other"), "x".to_string(), "{}".to_string());
    let second = executor.execute(&second_ctx, id("other"), "x".to_string(), "{}".to_string());
    let expect = |deposit: u128, gas: u64| DeferredAction {
        receiver_id: id("other"),
        actions: vec![Action::FunctionCall {
            method_name: "x".to_string(),
            args: b"{}".to_vec(),
            deposit,
            gas,
        }],
    };
    assert_eq!(first, Ok(expect(5, 10)));
    assert_eq!(second, Ok(expect(9, 20)));
}

#[test]
fn create_subaccount_below_default_threshold_is_refused() {
    let ctx = context("app", DEFAULT_MIN_DEPOSIT - 1, 300);
    let r = UserFactory {}.create_subaccount(&ctx, id("alice"), None);
    assert_eq!(r, Err(FactoryError::NotEnoughDeposit));
}

#[test]
fn create_subaccount_at_default_threshold_schedules_three_steps() {
    let ctx = context("app", DEFAULT_MIN_DEPOSIT, 300);
    let plan = UserFactory {}.create_subaccount(&ctx, id("alice"), None).unwrap();
    assert_eq!(plan.receiver_id.as_str(), "alice.app");
    assert_eq!(
        plan.actions,
        vec![
            Action::CreateAccount,
            Action::AddFullAccessKey { public_key: vec![0, 7, 7, 7] },
            Action::Transfer { amount: DEFAULT_MIN_DEPOSIT },
        ]
    );
}

#[test]
fn default_threshold_is_one_unit_of_ten_to_the_twenty_four() {
    assert_eq!(DEFAULT_MIN_DEPOSIT, 10u128.pow(24));
}

#[test]
fn create_subaccount_transfers_the_whole_attached_value() {
    let ctx = context("factory.near", 700, 0);
    let plan = UserFactory {}.create_subaccount(&ctx, id("bob"), Some(500)).unwrap();
    assert_eq!(plan.receiver_id.as_str(), "bob.factory.near");
    assert_eq!(plan.actions[2], Action::Transfer { amount: 700 });
}

#[test]
fn create_subaccount_override_is_inclusive() {
    let ctx = context("app", 500, 0);
    assert!(UserFactory {}.create_subaccount(&ctx, id("bob"), Some(500)).is_ok());
    assert_eq!(
        UserFactory {}.create_subaccount(&ctx, id("bob"), Some(501)),
        Err(FactoryError::NotEnoughDeposit)
    );
    let ctx = context("app", 0, 0);
    assert!(UserFactory {}.create_subaccount(&ctx, id("bob"), Some(0)).is_ok());
}

#[test]
fn create_subaccount_twice_schedules_twice() {
    let mut factory = UserFactory {};
    let rich = context("app", 800, 0);
    let poor = context("app", 100, 0);
    let first = factory.create_subaccount(&rich, id("carol"), Some(200)).unwrap();
    let second = factory.create_subaccount(&rich, id("carol"), Some(200)).unwrap();
    assert_eq!(first, second);
    assert_eq!(first.receiver_id.as_str(), "carol.app");
    assert_eq!(
        factory.create_subaccount(&poor, id("carol"), Some(200)),
        Err(FactoryError::NotEnoughDeposit)
    );
}

#[test]
fn create_subaccount_at_the_length_limit() {
    let prefix = "a".repeat(60);
    let ctx = context("app", 1, 0);
    let plan = UserFactory {}.create_subaccount(&ctx, id(&prefix), Some(1)).unwrap();
    assert_eq!(plan.receiver_id.as_str().len(), 64);
    assert_eq!(plan.receiver_id.as_str(), format!("{}.app", prefix));
}

#[test]
fn account_names_follow_the_protocol_rule() {
    for good in ["ab", "alice.near", "a-b_c.d0", "0x9", &"z".repeat(64)] {
        assert_eq!(AccountId::parse(good).map(|a| a.as_str().to_string()), Some(good.to_string()));
    }
    for bad in ["", "a", "Alice", "a..b", ".ab", "ab.", "a-_b", "a b", "é1", &"z".repeat(65)] {
        assert!(AccountId::parse(bad).is_none(), "{bad}");
    }
}

#[test]
fn account_names_compare_by_text() {
    assert!(id("app").same_as(&id("app")));
    assert!(!id("app").same_as(&id("app2")));
    assert_eq!(id("x.near").clone(), id("x.near"));
    assert_eq!(AccountId::subaccount(&id("alice"), &id("app")).as_str(), "alice.app");
}

#[test]
fn error_codes_are_stable() {
    assert_eq!(ExecError::AlreadyInitialized.to_string(), "ERR_EXEC_ALREADY_INITIALIZED");
    assert_eq!(ExecError::CallCurrentAccount.to_string(), "ERR_EXEC_CALL_CURRENT");
    assert_eq!(FactoryError::NotEnoughDeposit.to_string(), "ERR_WALLET_LOW_DEPOSIT");
}
