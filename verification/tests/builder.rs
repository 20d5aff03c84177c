use lemotests::{Near, StateBuilder};
use std::path::PathBuf;

const NFT: &str = "nft";
const NFT_PATH: &str = "../../contract.wasm";

#[test]
fn builder_path_works() {
    StateBuilder::new().with_contract(NFT, NFT_PATH, Near(10)).unwrap();
}

#[test]
fn builder_path_buf_works() {
    StateBuilder::new()
        .with_contract(NFT, PathBuf::from(NFT_PATH).to_str().unwrap(), 10u128)
        .unwrap();
}

#[test]
fn builder_ref_on_path_buf_works() {
    let path = PathBuf::from(NFT_PATH);
    StateBuilder::new()
        .with_contract(NFT, (&path).to_str().unwrap(), 10u128)
        .unwrap();
}

#[test]
fn builder_account_str_works() {
    StateBuilder::new().with_account("alice", 10u128).unwrap();
}

#[test]
fn builder_account_string_works() {
    StateBuilder::new()
        .with_account(String::from("alice").as_str(), 10u128)
        .unwrap();
}

#[test]
fn builder_account_ref_on_string_works() {
    let name = String::from("alice");
    StateBuilder::new()
        .with_account((&name).as_str(), 10u128)
        .unwrap();
}

#[test]
fn duplicate_account_key_fails() {
    let b = StateBuilder::new().with_account("alice", 10u128).unwrap();
    let e = b.with_account("alice", 20u128).unwrap_err();
    assert_eq!(
        e.message(),
        "Failed to build state: Couldn't add task for account with id `alice` because it already exists"
    );
}

#[test]
fn duplicate_contract_key_fails() {
    let b = StateBuilder::new()
        .with_contract(NFT, NFT_PATH, Near(10))
        .unwrap();
    let e = b.with_contract(NFT, NFT_PATH, Near(10)).unwrap_err();
    assert_eq!(
        e.message(),
        "Failed to build state: Couldn't add task for contract with id `nft` because it already exists"
    );
}

#[test]
fn mixed_duplicate_key_fails() {
    let b = StateBuilder::new().with_account("token", 10u128).unwrap();
    assert!(b.with_contract("token", NFT_PATH, Near(10)).is_err());

    let b2 = StateBuilder::new()
        .with_contract("token", NFT_PATH, Near(10))
        .unwrap();
    assert!(b2.with_account("token", 10u128).is_err());
}

#[test]
fn distinct_keys_both_register() {
    let b = StateBuilder::new()
        .with_account("alice", 10u128)
        .unwrap()
        .with_contract("token", NFT_PATH, Near(10))
        .unwrap()
        .with_bob(Near(5))
        .unwrap();
    assert_eq!(b.len(), 3);
}

#[test]
fn well_known_participants_register() {
    let b = StateBuilder::new()
        .with_alice(Near(1))
        .unwrap()
        .with_bob(Near(1))
        .unwrap()
        .with_charlie(Near(1))
        .unwrap()
        .with_dave(Near(1))
        .unwrap()
        .with_edward(Near(1))
        .unwrap()
        .with_fred(Near(1))
        .unwrap();
    assert_eq!(b.len(), 6);
    assert!(b.with_alice(Near(1)).is_err());
}
