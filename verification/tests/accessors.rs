use lemotests::{
    ArgValue, Arguments, CallDetails, HelperError, Key, Near, State, Tgas, TxDetails, TxKind,
    TxWrapper,
};

fn sample_state() -> State {
    State::new(
        "root.test".to_owned(),
        vec![("alice".to_owned(), "alice.root.test".to_owned())],
        vec![("token".to_owned(), "token.root.test".to_owned())],
    )
}

#[test]
fn step_accessors_and_configuration() {
    let mut args = Arguments::new();
    args.insert("amount".to_owned(), ArgValue::UInt(5));
    let tx = TxWrapper::new(
        Some("alice".to_owned()),
        Some("token".to_owned()),
        "transfer".to_owned(),
        args,
        TxKind::AccountCallContract,
        sample_state(),
    );
    assert_eq!(tx.account().map(|s| s.as_str()), Some("alice"));
    assert_eq!(tx.contract().map(|s| s.as_str()), Some("token"));
    assert_eq!(tx.function(), "transfer");
    assert_eq!(tx.arguments().len(), 1);
    assert_eq!(tx.near(), 0);
    assert_eq!(tx.gas(), 0);
    assert!(tx.label().is_none());
    assert!(tx.has_state());

    let tx = tx.with_deposit(Near(2)).with_gas(Tgas(5)).with_label("send");
    assert_eq!(tx.near(), 2_000_000_000_000_000_000_000_000u128);
    assert_eq!(tx.gas(), 5_000_000_000_000u64);
    assert!(matches!(tx.label(), Some(Key::Label(l)) if l.as_str() == "send"));

    let mut state = tx.chain();
    let queue = state.take_tx_scenarios();
    assert_eq!(queue.len(), 1);
    assert!(!queue[0].has_state());
    assert_eq!(queue[0].function(), "transfer");
    assert!(state.take_tx_scenarios().is_empty());
}

#[test]
fn canonical_keys_and_well_known_lookups() {
    let state = sample_state();
    assert_eq!(state.account_key("alice").map(|s| s.as_str()), Some("alice"));
    assert_eq!(state.contract_key("token").map(|s| s.as_str()), Some("token"));
    assert!(state.account_key("carol").is_none());
    assert!(state.contract_key("carol").is_none());
    assert_eq!(state.alice().unwrap().as_str(), "alice.root.test");
    assert_eq!(state.alice_id().unwrap(), "alice.root.test");
    assert!(state.bob().is_err());
    assert_eq!(
        state.contract_id("token").unwrap(),
        "token.root.test"
    );
}

#[test]
fn step_without_account_key_fails_at_dispatch() {
    let tx = TxWrapper::new(
        None,
        Some("token".to_owned()),
        "transfer".to_owned(),
        Arguments::new(),
        TxKind::AccountCallContract,
        sample_state(),
    );
    let outcome = TxDetails::Call(CallDetails {
        success: true,
        logs: Vec::new(),
        value: String::new(),
        outcomes: Vec::new(),
    });
    let e = tx.execute_with(vec![outcome]).unwrap_err();
    assert!(matches!(e, HelperError::TransactionError(_)));
    assert_eq!(
        e.message(),
        "Failed to process transactions: the step names no account key"
    );
}

#[test]
fn unregistered_contract_fails_at_dispatch() {
    let tx = TxWrapper::new(
        None,
        Some("unknown".to_owned()),
        "init".to_owned(),
        Arguments::new(),
        TxKind::SelfContractCall,
        sample_state(),
    );
    let outcome = TxDetails::Call(CallDetails {
        success: true,
        logs: Vec::new(),
        value: String::new(),
        outcomes: Vec::new(),
    });
    let e = tx.execute_with(vec![outcome]).unwrap_err();
    assert!(matches!(e, HelperError::ContractNotFound(ref k) if k.as_str() == "unknown"));
    assert_eq!(e.message(), "Failed to get contract with id unknown");
}
