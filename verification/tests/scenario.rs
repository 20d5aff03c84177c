use lemotests::{
    AccountDetails, ArgValue, Arguments, CallDetails, Contains, HelperError, Key, Near,
    ProvisionRun, ScenarioRun, State, StateBuilder, TxAction, TxDetails, TxKind, TxWrapper,
    ViewDetails,
};

fn call_outcome(success: bool, value: &str) -> TxDetails {
    TxDetails::Call(CallDetails {
        success,
        logs: Vec::new(),
        value: value.to_owned(),
        outcomes: Vec::new(),
    })
}

fn demo_state() -> State {
    State::new(
        "root.test".to_owned(),
        vec![
            ("alice".to_owned(), "alice.root.test".to_owned()),
            ("bob".to_owned(), "bob.root.test".to_owned()),
        ],
        vec![("token".to_owned(), "token.root.test".to_owned())],
    )
}

#[test]
fn provisioning_nothing_yields_empty_state() {
    let builder = StateBuilder::new();
    let mut run = ProvisionRun::begin(builder);
    assert!(run.next_request().is_none());
    let state = run.finish("root.test".to_owned());
    assert!(state.account("alice").is_err());
    assert!(state.contract("token").is_err());
    let ids: [String; 0] = state.string_ids().unwrap();
    assert_eq!(ids.len(), 0);
}

#[test]
fn provisioning_follows_declaration_order() {
    let builder = StateBuilder::new()
        .with_account("alice", Near(20))
        .unwrap()
        .with_contract("token", "res/token.wasm", Near(10))
        .unwrap()
        .with_bob(Near(5))
        .unwrap();
    let mut run = ProvisionRun::begin(builder);

    let req1 = run.next_request().unwrap();
    assert_eq!(req1.key, "alice");
    assert_eq!(req1.balance, 20_000_000_000_000_000_000_000_000u128);
    assert!(req1.wasm_path.is_none());
    run.record("alice.root.test".to_owned());

    let req2 = run.next_request().unwrap();
    assert_eq!(req2.key, "token");
    assert_eq!(req2.balance, 10_000_000_000_000_000_000_000_000u128);
    assert_eq!(req2.wasm_path.as_deref(), Some("res/token.wasm"));
    run.record("token.root.test".to_owned());

    let req3 = run.next_request().unwrap();
    assert_eq!(req3.key, "bob");
    run.record("bob.root.test".to_owned());

    assert!(run.next_request().is_none());
    let state = run.finish("root.test".to_owned());
    assert_eq!(state.account("alice").unwrap().as_str(), "alice.root.test");
    assert_eq!(state.contract("token").unwrap().as_str(), "token.root.test");
    assert_eq!(state.account("bob").unwrap().as_str(), "bob.root.test");
    assert_eq!(state.root().as_str(), "root.test");

    let ids: [String; 3] = state.string_ids().unwrap();
    assert_eq!(ids[0], "token.root.test");
    assert_eq!(ids[1], "alice.root.test");
    assert_eq!(ids[2], "bob.root.test");
    assert!(state.string_ids::<2>().is_err());
}

#[test]
fn empty_queue_execution_yields_empty_ledger() {
    let state = demo_state();
    let run = ScenarioRun::new(state);
    assert!(run.is_done());
    let result = run.finish();
    assert_eq!(result.len(), 0);
    let state = result.into_state();
    assert_eq!(state.account("alice").unwrap().as_str(), "alice.root.test");
    assert_eq!(state.contract("token").unwrap().as_str(), "token.root.test");
}

#[test]
fn unlabeled_steps_are_keyed_by_position() {
    let state = demo_state();
    let s1 = state.view_account("alice").unwrap();
    let state = s1.chain();
    let s2 = state.view_account("bob").unwrap();
    let state = s2.chain();
    let s3 = TxWrapper::new(
        None,
        Some("token".to_owned()),
        "total_supply".to_owned(),
        Arguments::new(),
        TxKind::View,
        state,
    );
    let outcomes = vec![
        TxDetails::ViewAccount(AccountDetails { balance: 7 }),
        TxDetails::ViewAccount(AccountDetails { balance: 9 }),
        TxDetails::View(ViewDetails { value: "100".to_owned(), logs: Vec::new() }),
    ];
    let result = s3.execute_with(outcomes).unwrap();
    assert_eq!(result.len(), 3);
    assert!(matches!(result.key_at(0), Key::Index(0)));
    assert!(matches!(result.key_at(1), Key::Index(1)));
    assert!(matches!(result.key_at(2), Key::Index(2)));
    assert_eq!(result.tx_at(0).balance(), 7);
    assert_eq!(result.tx_at(1).balance(), 9);
    assert_eq!(result.tx_at(2).json().as_str(), "100");
}

#[test]
fn repeated_label_keeps_second_outcome() {
    let state = demo_state();
    let s1 = state.view_account("alice").unwrap().with_label("who");
    let state = s1.chain();
    let s2 = state.view_account("bob").unwrap().with_label("who");
    let outcomes = vec![
        TxDetails::ViewAccount(AccountDetails { balance: 1 }),
        TxDetails::ViewAccount(AccountDetails { balance: 2 }),
    ];
    let result = s2.execute_with(outcomes).unwrap();
    assert_eq!(result.len(), 1);
    assert_eq!(result.tx("who").unwrap().balance(), 2);
    assert_eq!(result.tx_at(0).balance(), 2);
}

#[test]
fn label_and_positions_share_the_ledger() {
    let state = demo_state();
    let s1 = state.view_account("alice").unwrap().with_label("first");
    let state = s1.chain();
    let s2 = state.view_account("bob").unwrap();
    let outcomes = vec![
        TxDetails::ViewAccount(AccountDetails { balance: 1 }),
        TxDetails::ViewAccount(AccountDetails { balance: 2 }),
    ];
    let result = s2.execute_with(outcomes).unwrap();
    assert_eq!(result.len(), 2);
    assert_eq!(result.tx("first").unwrap().balance(), 1);
    assert!(matches!(result.key_at(1), Key::Index(1)));
    assert_eq!(result.tx_at(1).balance(), 2);
    let e = result.tx("missing").unwrap_err();
    assert_eq!(e.message(), "ChainResultError was occured: No tx with label missing");
}

#[test]
fn unregistered_account_aborts_the_batch() {
    let state = demo_state();
    let tx = TxWrapper::new(
        Some("carol".to_owned()),
        Some("token".to_owned()),
        "transfer".to_owned(),
        Arguments::new(),
        TxKind::AccountCallContract,
        state,
    );
    let result = tx.execute_with(vec![call_outcome(true, "null")]);
    let e = match &result {
        Err(e) => e.clone(),
        Ok(_) => panic!("expected an abort"),
    };
    assert!(matches!(e, HelperError::AccountNotFound(ref k) if k.as_str() == "carol"));
    assert_eq!(e.message(), "Failed to get account with id carol");
    assert!(result.contains_error("carol"));
    assert!(!result.contains_error("token"));
}

#[test]
fn execution_preserves_account_and_contract_mappings() {
    let state = demo_state();
    let step = state.view_account("alice").unwrap();
    let outcomes = vec![TxDetails::ViewAccount(AccountDetails { balance: 11 })];
    let result = step.execute_with(outcomes).unwrap();
    let state = result.into_state();
    assert_eq!(state.account("alice").unwrap().as_str(), "alice.root.test");
    assert_eq!(state.account("bob").unwrap().as_str(), "bob.root.test");
    assert_eq!(state.contract("token").unwrap().as_str(), "token.root.test");
    assert!(state.account("carol").is_err());

    // The state taken back keeps working: a second batch can be built.
    let step = state.view_account("bob").unwrap();
    let result = step
        .execute_with(vec![TxDetails::ViewAccount(AccountDetails { balance: 3 })])
        .unwrap();
    assert_eq!(result.tx_at(0).balance(), 3);
}

#[test]
fn next_action_resolves_targets_for_dispatch() {
    let state = demo_state();
    let tx = TxWrapper::new(
        Some("alice".to_owned()),
        Some("token".to_owned()),
        "transfer".to_owned(),
        Arguments::new(),
        TxKind::AccountCallContract,
        state,
    )
    .with_deposit(Near(1))
    .with_gas(300_000_000_000_000u64);
    let state = tx.chain();
    let mut run = ScenarioRun::new(state);
    assert!(!run.is_done());
    match run.next_action().unwrap() {
        TxAction::Call { signer_id, contract_id, function, args, deposit, gas } => {
            assert_eq!(signer_id, "alice.root.test");
            assert_eq!(contract_id, "token.root.test");
            assert_eq!(function, "transfer");
            assert_eq!(args.len(), 0);
            assert_eq!(deposit, 1_000_000_000_000_000_000_000_000u128);
            assert_eq!(gas, 300_000_000_000_000u64);
        }
        _ => panic!("expected a state-changing call"),
    }
    run.record_outcome(call_outcome(true, "null"));
    assert!(run.is_done());
    let result = run.finish();
    assert!(result.tx_at(0).is_success());
}

#[test]
fn full_scenario_with_contract_init() {
    // Register a participant and a contract, provision, call the
    // contract's own function once, and look everything up afterwards.
    let builder = StateBuilder::new()
        .with_account("alice", Near(20))
        .unwrap()
        .with_contract("token", "res/token.wasm", Near(10))
        .unwrap();
    let mut run = ProvisionRun::begin(builder);
    while let Some(req) = run.next_request() {
        run.record(format!("{}.root.test", req.key));
    }
    let state = run.finish("root.test".to_owned());

    let mut args = Arguments::new();
    args.insert("owner_id".to_owned(), ArgValue::Str("alice".to_owned()));
    let step = TxWrapper::new(
        None,
        Some("token".to_owned()),
        "init".to_owned(),
        args,
        TxKind::SelfContractCall,
        state,
    );
    let result = step.execute_with(vec![call_outcome(true, "null")]).unwrap();
    assert!(result.tx_at(0).is_success());
    let state = result.into_state();
    assert_eq!(state.account("alice").unwrap().as_str(), "alice.root.test");
}
