use vstd::prelude::*;
use vstd::string::*;

verus! {

/// The error taxonomy of the harness. Configuration mistakes (duplicate
/// registrations), lookup failures, target-resolution failures at dispatch,
/// and wrapped network failures each carry the offending key or a message.
#[derive(Debug, Clone)]
pub enum HelperError {
    UnexpectedError(String),
    BuilderError(String),
    AccountNotFound(String),
    TransactionError(String),
    ContractNotFound(String),
    AccountAndContractNotFound(String),
    DestructuringError(String),
    ChainResultError(String),
}

impl HelperError {
    /// The human-readable description of this error.
    pub open spec fn message_view(self) -> Seq<char> {
        match self {
            HelperError::UnexpectedError(s) => s@,
            HelperError::BuilderError(s) => "Failed to build state: "@ + s@,
            HelperError::AccountNotFound(s) => "Failed to get account with id "@ + s@,
            HelperError::TransactionError(s) => "Failed to process transactions: "@ + s@,
            HelperError::ContractNotFound(s) => "Failed to get contract with id "@ + s@,
            HelperError::AccountAndContractNotFound(s) => "Failed to get contract and account with id "@
                + s@,
            HelperError::DestructuringError(s) => "Failed to destructure array into variables: "@
                + s@,
            HelperError::ChainResultError(s) => "ChainResultError was occured: "@ + s@,
        }
    }

    /// Renders the error as one line of text.
    pub fn message(&self) -> (r: String)
        ensures
            r@ == self.message_view(),
    {
        match self {
            HelperError::UnexpectedError(s) => s.clone(),
            HelperError::BuilderError(s) => String::from_str("Failed to build state: ").concat(
                s.as_str(),
            ),
            HelperError::AccountNotFound(s) => String::from_str(
                "Failed to get account with id ",
            ).concat(s.as_str()),
            HelperError::TransactionError(s) => String::from_str(
                "Failed to process transactions: ",
            ).concat(s.as_str()),
            HelperError::ContractNotFound(s) => String::from_str(
                "Failed to get contract with id ",
            ).concat(s.as_str()),
            HelperError::AccountAndContractNotFound(s) => String::from_str(
                "Failed to get contract and account with id ",
            ).concat(s.as_str()),
            HelperError::DestructuringError(s) => String::from_str(
                "Failed to destructure array into variables: ",
            ).concat(s.as_str()),
            HelperError::ChainResultError(s) => String::from_str(
                "ChainResultError was occured: ",
            ).concat(s.as_str()),
        }
    }
}

} // verus!
