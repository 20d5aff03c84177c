use lemotests::{
    ArgumentSchema, ContractSchema, FunctionBlueprint, FunctionKind, FunctionSchema, TxKind,
};

fn mint_schema() -> FunctionSchema {
    FunctionSchema::new(
        "nft_mint".to_owned(),
        FunctionKind::Call,
        vec![
            ArgumentSchema::new("receiver".to_owned(), "String".to_owned()),
            ArgumentSchema::new("amount".to_owned(), "u64".to_owned()),
        ],
    )
}

#[test]
fn argument_rewrites_owned_string_type() {
    let a = ArgumentSchema::new("receiver".to_owned(), "String".to_owned());
    assert_eq!(a.argument(), "receiver: &str");
    let b = ArgumentSchema::new("amount".to_owned(), "u64".to_owned());
    assert_eq!(b.argument(), "amount: u64");
    let c = ArgumentSchema::new("names".to_owned(), "Vec<String>".to_owned());
    assert_eq!(c.argument(), "names: Vec<&str>");
}

#[test]
fn call_function_yields_self_and_account_helpers() {
    let schema = mint_schema();
    assert!(matches!(schema.kind(), FunctionKind::Call));
    let accounts = vec!["alice", "bob"];
    let bps = schema.blueprints("nft", &accounts);
    assert_eq!(bps.len(), 3);
    assert_eq!(bps[0].trait_method_name, "call_nft_nft_mint");
    assert!(matches!(bps[0].tx_kind, TxKind::SelfContractCall));
    assert!(bps[0].account.is_none());
    assert_eq!(bps[1].trait_method_name, "alice_call_nft_nft_mint");
    assert!(matches!(bps[1].tx_kind, TxKind::AccountCallContract));
    assert_eq!(bps[1].account.as_deref(), Some("alice"));
    assert_eq!(bps[2].trait_method_name, "bob_call_nft_nft_mint");
    assert_eq!(bps[2].account.as_deref(), Some("bob"));
    assert_eq!(bps[0].args[0].ty, "&str");
    assert_eq!(bps[0].args[1].ty, "u64");
}

#[test]
fn view_function_yields_one_helper() {
    let schema = FunctionSchema::new(
        "nft_token".to_owned(),
        FunctionKind::View,
        vec![ArgumentSchema::new("token_id".to_owned(), "String".to_owned())],
    );
    let accounts = vec!["alice", "bob"];
    let bps = schema.blueprints("market", &accounts);
    assert_eq!(bps.len(), 1);
    assert_eq!(bps[0].trait_method_name, "view_market_nft_token");
    assert!(matches!(bps[0].tx_kind, TxKind::View));
    assert!(bps[0].account.is_none());
}

#[test]
fn contract_schema_flattens_function_blocks() {
    let contract = ContractSchema::new(
        "nft".to_owned(),
        vec![
            mint_schema(),
            FunctionSchema::new("nft_token".to_owned(), FunctionKind::View, Vec::new()),
        ],
    );
    let accounts = vec!["alice", "bob"];
    let bps = contract.blueprints(&accounts);
    assert_eq!(bps.len(), 4);
    assert_eq!(bps[0].trait_method_name, "call_nft_nft_mint");
    assert_eq!(bps[1].trait_method_name, "alice_call_nft_nft_mint");
    assert_eq!(bps[2].trait_method_name, "bob_call_nft_nft_mint");
    assert_eq!(bps[3].trait_method_name, "view_nft_nft_token");
}

#[test]
fn blueprint_lists_parameter_names() {
    let bp = FunctionBlueprint::new(
        "nft_mint".to_owned(),
        "call_nft_nft_mint".to_owned(),
        vec![
            ArgumentSchema::new("receiver".to_owned(), "&str".to_owned()),
            ArgumentSchema::new("amount".to_owned(), "u64".to_owned()),
        ],
        None,
        TxKind::SelfContractCall,
        "nft".to_owned(),
    );
    assert!(matches!(bp.tx_kind(), TxKind::SelfContractCall));
    assert_eq!(bp.args_without_types(), vec!["receiver", "amount"]);
}
