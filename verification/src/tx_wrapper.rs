use vstd::prelude::*;
use vstd::string::*;

use crate::args::{ArgValue, Arguments};
use crate::chain_result::Key;
use crate::state::State;
use crate::units::{Gasable, Nearable};

verus! {

/// The four operation kinds a step can carry.
#[derive(Debug, Copy, Clone, PartialEq, Eq, Structural)]
pub enum TxKind {
    AccountCallContract,
    View,
    SelfContractCall,
    ViewAccount,
}

/// One configured pending operation: its kind, the registered keys of its
/// targets (resolved only at execution time), the function name and named
/// arguments, the optional attached balance and compute budget, the optional
/// result label, and the Network State it was built from, which it owns
/// exclusively until it is chained or executed.
#[derive(Debug)]
pub struct TxWrapper {
    account: Option<String>,
    contract: Option<String>,
    function: String,
    arguments: Arguments,
    near: Option<u128>,
    gas: Option<u64>,
    tx_kind: TxKind,
    state: Option<State>,
    label: Option<Key>,
}

impl TxWrapper {
    pub closed spec fn account_spec(self) -> Option<String> {
        self.account
    }

    pub closed spec fn contract_spec(self) -> Option<String> {
        self.contract
    }

    pub closed spec fn function_spec(self) -> String {
        self.function
    }

    pub closed spec fn args_spec(self) -> Seq<(String, ArgValue)> {
        self.arguments.entries_seq()
    }

    pub closed spec fn near_spec(self) -> Option<u128> {
        self.near
    }

    pub closed spec fn gas_spec(self) -> Option<u64> {
        self.gas
    }

    pub closed spec fn kind_spec(self) -> TxKind {
        self.tx_kind
    }

    pub closed spec fn state_spec(self) -> Option<State> {
        self.state
    }

    pub closed spec fn label_spec(self) -> Option<Key> {
        self.label
    }

    /// This step, with its owned state handed off.
    pub closed spec fn detached(self) -> TxWrapper {
        TxWrapper { state: None, ..self }
    }

    /// The attached balance, defaulting to zero.
    pub open spec fn near_or_zero(self) -> u128 {
        match self.near_spec() {
            Some(n) => n,
            None => 0,
        }
    }

    /// The compute budget, defaulting to zero.
    pub open spec fn gas_or_zero(self) -> u64 {
        match self.gas_spec() {
            Some(g) => g,
            None => 0,
        }
    }

    /// Builds a step from its parts; balance, budget and label start unset.
    pub fn new(
        account: Option<String>,
        contract: Option<String>,
        function: String,
        arguments: Arguments,
        tx_kind: TxKind,
        state: State,
    ) -> (r: TxWrapper)
        ensures
            r.account_spec() == account,
            r.contract_spec() == contract,
            r.function_spec() == function,
            r.args_spec() == arguments.entries_seq(),
            r.kind_spec() == tx_kind,
            r.state_spec() == Some(state),
            r.near_spec() is None,
            r.gas_spec() is None,
            r.label_spec() is None,
    {
        TxWrapper {
            account,
            contract,
            arguments,
            function,
            near: None,
            gas: None,
            tx_kind,
            state: Some(state),
            label: None,
        }
    }

    /// The registered key of the acting account, if the step names one.
    pub fn account(&self) -> (r: Option<&String>)
        ensures
            match r {
                Some(a) => self.account_spec() == Some(*a),
                None => self.account_spec() is None,
            },
    {
        self.account.as_ref()
    }

    /// The registered key of the target contract, if the step names one.
    pub fn contract(&self) -> (r: Option<&String>)
        ensures
            match r {
                Some(c) => self.contract_spec() == Some(*c),
                None => self.contract_spec() is None,
            },
    {
        self.contract.as_ref()
    }

    /// The named arguments of the step.
    pub fn arguments(&self) -> (r: &Arguments)
        ensures
            r.entries_seq() == self.args_spec(),
    {
        &self.arguments
    }

    /// The name of the function or view the step calls.
    pub fn function(&self) -> (r: &str)
        ensures
            r@ == self.function_spec()@,
    {
        self.function.as_str()
    }

    /// The operation kind of the step.
    pub fn kind(&self) -> (r: TxKind)
        ensures
            r == self.kind_spec(),
    {
        self.tx_kind
    }

    /// The compute budget, defaulting to zero.
    pub fn gas(&self) -> (r: u64)
        ensures
            r == self.gas_or_zero(),
    {
        match &self.gas {
            Some(g) => *g,
            None => 0,
        }
    }

    /// The attached balance, defaulting to zero.
    pub fn near(&self) -> (r: u128)
        ensures
            r == self.near_or_zero(),
    {
        match &self.near {
            Some(n) => *n,
            None => 0,
        }
    }

    /// Sets the attached balance, scaled to base units.
    pub fn with_deposit<N: Nearable>(self, deposit: N) -> (r: TxWrapper)
        requires
            deposit.parse_req(),
        ensures
            r.near_spec() == Some(deposit.parsed()),
            r.account_spec() == self.account_spec(),
            r.contract_spec() == self.contract_spec(),
            r.function_spec() == self.function_spec(),
            r.args_spec() == self.args_spec(),
            r.gas_spec() == self.gas_spec(),
            r.kind_spec() == self.kind_spec(),
            r.state_spec() == self.state_spec(),
            r.label_spec() == self.label_spec(),
    {
        let value = deposit.parse();
        TxWrapper { near: Some(value), ..self }
    }

    /// Sets the compute budget, scaled to base units.
    pub fn with_gas<G: Gasable>(self, gas: G) -> (r: TxWrapper)
        requires
            gas.parse_req(),
        ensures
            r.gas_spec() == Some(gas.parsed()),
            r.account_spec() == self.account_spec(),
            r.contract_spec() == self.contract_spec(),
            r.function_spec() == self.function_spec(),
            r.args_spec() == self.args_spec(),
            r.near_spec() == self.near_spec(),
            r.kind_spec() == self.kind_spec(),
            r.state_spec() == self.state_spec(),
            r.label_spec() == self.label_spec(),
    {
        let value = gas.parse();
        TxWrapper { gas: Some(value), ..self }
    }

    /// Sets the result label under which the step's outcome is recorded.
    pub fn with_label(self, label: &str) -> (r: TxWrapper)
        ensures
            r.label_spec() matches Some(k) && k matches Key::Label(s) && s@ == label@,
            r.account_spec() == self.account_spec(),
            r.contract_spec() == self.contract_spec(),
            r.function_spec() == self.function_spec(),
            r.args_spec() == self.args_spec(),
            r.near_spec() == self.near_spec(),
            r.gas_spec() == self.gas_spec(),
            r.kind_spec() == self.kind_spec(),
            r.state_spec() == self.state_spec(),
    {
        TxWrapper { label: Some(Key::Label(label.to_owned())), ..self }
    }

    /// The label under which the outcome will be recorded, if one was set.
    pub fn label(&self) -> (r: Option<&Key>)
        ensures
            match r {
                Some(k) => self.label_spec() == Some(*k),
                None => self.label_spec() is None,
            },
    {
        self.label.as_ref()
    }

    /// Whether the step still owns its Network State, i.e. has been
    /// neither chained nor executed.
    pub fn has_state(&self) -> (r: bool)
        ensures
            r == (self.state_spec() is Some),
    {
        self.state.is_some()
    }

    /// Chains the step: enqueues it into its owned state and hands the
    /// state back for building the next step.
    pub fn chain(self) -> (s: State)
        requires
            self.state_spec() is Some,
        ensures
            ({
                let st = self.state_spec()->Some_0;
                &&& s.accounts_seq() == st.accounts_seq()
                &&& s.contracts_seq() == st.contracts_seq()
                &&& s.root_view() == st.root_view()
                &&& s.wf() == st.wf()
                &&& s.queue_opt() == Some(st.queue().push(self.detached()))
            }),
    {
        let mut me = self;
        let taken = me.state.take();
        let mut state = match taken {
            Some(s) => s,
            None => unreached(),
        };
        state.add_tx_scenario(me);
        state
    }
}

} // verus!
