//! A test-harness orchestration library for exercising contract-style
//! programs against a sandboxed network: a provisioning builder, a network
//! state with a queue of pending scenario steps, an executor that drains the
//! queue in order, and a label- or position-addressable result ledger.

pub mod args;
pub mod chain_result;
pub mod consts;
pub mod errors;
pub mod executor;
pub mod imap;
pub mod laws;
pub mod mapspec;
pub mod schema;
pub mod state;
pub mod state_builder;
pub mod strutil;
pub mod tx_details;
pub mod tx_wrapper;
pub mod units;

pub use args::{ArgValue, Arguments};
pub use chain_result::{ChainResult, Contains, Key};
pub use consts::{ALMOST_ZERO, ALICE, BOB, CHARLIE, DAVE, EDWARD, FRED};
pub use errors::HelperError;
pub use executor::{ScenarioRun, TxAction};
pub use schema::{ArgumentSchema, ContractSchema, FunctionBlueprint, FunctionKind, FunctionSchema};
pub use state::State;
pub use state_builder::{ProvisionRequest, ProvisionRun, RegEntry, StateBuilder};
pub use tx_details::{AccountDetails, CallDetails, OutcomeDetails, TxDetails, ViewDetails};
pub use tx_wrapper::{TxKind, TxWrapper};
pub use units::{Gasable, Near, Nearable, Tgas};
