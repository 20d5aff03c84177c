use lemotests::consts::accounts;
use lemotests::{Gasable, Nearable};
use lemotests::{HelperError, Near, Tgas, ALMOST_ZERO};

#[test]
fn near_scales_to_base_units() {
    assert_eq!(Near(1).parse(), 1_000_000_000_000_000_000_000_000u128);
    assert_eq!(Near(20).parse(), 20_000_000_000_000_000_000_000_000u128);
    assert_eq!(42u128.parse(), 42u128);
}

#[test]
fn tgas_scales_to_base_units() {
    assert_eq!(Tgas(1).parse(), 1_000_000_000_000u64);
    assert_eq!(Tgas(300).parse(), 300_000_000_000_000u64);
    assert_eq!(7u64.parse(), 7u64);
}

#[test]
fn near_subtraction() {
    assert_eq!(Near(10).minus(Near(4)), Near(6));
    assert_eq!(
        Near(2).minus_yocto(500_000_000_000_000_000_000_000u128),
        1_500_000_000_000_000_000_000_000u128
    );
}

#[test]
fn almost_zero_is_a_tenth_of_a_token() {
    assert_eq!(ALMOST_ZERO * 10, Near(1).parse());
}

#[test]
fn well_known_names_in_order() {
    let names = accounts();
    assert_eq!(names, vec!["alice", "bob", "charlie", "dave", "edward", "fred"]);
}

#[test]
fn error_messages_carry_their_context() {
    assert_eq!(
        HelperError::UnexpectedError("boom".to_owned()).message(),
        "boom"
    );
    assert_eq!(
        HelperError::BuilderError("no disk".to_owned()).message(),
        "Failed to build state: no disk"
    );
    assert_eq!(
        HelperError::AccountNotFound("alice".to_owned()).message(),
        "Failed to get account with id alice"
    );
    assert_eq!(
        HelperError::TransactionError("step 3".to_owned()).message(),
        "Failed to process transactions: step 3"
    );
    assert_eq!(
        HelperError::ContractNotFound("token".to_owned()).message(),
        "Failed to get contract with id token"
    );
    assert_eq!(
        HelperError::AccountAndContractNotFound("alice, token".to_owned()).message(),
        "Failed to get contract and account with id alice, token"
    );
    assert_eq!(
        HelperError::DestructuringError("bad arity".to_owned()).message(),
        "Failed to destructure array into variables: bad arity"
    );
    assert_eq!(
        HelperError::ChainResultError("no entry".to_owned()).message(),
        "ChainResultError was occured: no entry"
    );
}
