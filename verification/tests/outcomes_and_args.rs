use lemotests::{
    AccountDetails, ArgValue, Arguments, CallDetails, OutcomeDetails, TxDetails, ViewDetails,
};

#[test]
fn call_outcome_accessors() {
    let d = TxDetails::Call(CallDetails {
        success: true,
        logs: vec!["minted".to_owned(), "logged".to_owned()],
        value: "{\"ok\":true}".to_owned(),
        outcomes: vec![
            OutcomeDetails { gas_burnt: 11, logs: vec!["receipt".to_owned()] },
            OutcomeDetails { gas_burnt: 22, logs: Vec::new() },
        ],
    });
    assert!(d.is_success());
    assert_eq!(d.json().as_str(), "{\"ok\":true}");
    assert_eq!(d.logs().len(), 2);
    assert_eq!(d.logs()[0], "minted");
    assert_eq!(d.outcome().gas_burnt, 11);
    assert_eq!(d.outcomes().len(), 2);
    assert_eq!(d.outcomes()[1].gas_burnt, 22);
}

#[test]
fn view_outcome_accessors() {
    let d = TxDetails::View(ViewDetails { value: "7".to_owned(), logs: Vec::new() });
    assert_eq!(d.json().as_str(), "7");
}

#[test]
fn account_outcome_accessors() {
    let d = TxDetails::ViewAccount(AccountDetails { balance: 31 });
    assert_eq!(d.balance(), 31);
}

#[test]
fn arguments_keep_order_and_overwrite_by_key() {
    let mut args = Arguments::new();
    args.insert("owner_id".to_owned(), ArgValue::Str("alice".to_owned()));
    args.insert("amount".to_owned(), ArgValue::UInt(5));
    args.insert("owner_id".to_owned(), ArgValue::Str("bob".to_owned()));
    assert_eq!(args.len(), 2);
    let items = args.items();
    assert_eq!(items[0].0, "owner_id");
    assert!(matches!(items[0].1, ArgValue::Str(ref s) if s.as_str() == "bob"));
    assert_eq!(items[1].0, "amount");
    assert!(matches!(items[1].1, ArgValue::UInt(5)));

    let copy = args.duplicate();
    assert_eq!(copy.len(), 2);
    assert_eq!(copy.items()[1].0, "amount");
}
