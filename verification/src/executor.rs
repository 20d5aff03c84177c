use vstd::prelude::*;
use vstd::string::*;

use crate::args::Arguments;
use crate::chain_result::{k_insert, ChainResult, Key};
use crate::errors::HelperError;
use crate::mapspec::{s_has_key, s_lookup};
use crate::state::State;
use crate::tx_details::TxDetails;
use crate::tx_wrapper::{TxKind, TxWrapper};

verus! {

// The scenario executor. Steps are drained from the Network State in FIFO
// order; each is resolved against the state's mappings immediately before
// dispatch, the host performs the network call, and the outcome is recorded
// in the result ledger under the step's label or batch position. The first
// step that fails to resolve aborts the whole batch.

/// One fully resolved network operation, ready for dispatch by the host.
#[derive(Debug)]
pub enum TxAction {
    Call {
        signer_id: String,
        contract_id: String,
        function: String,
        args: Arguments,
        deposit: u128,
        gas: u64,
    },
    SelfCall { contract_id: String, function: String, args: Arguments, deposit: u128, gas: u64 },
    ViewCall { contract_id: String, function: String, args: Arguments, gas: u64 },
    ViewAccount { account_id: String },
}

/// Whether this kind of step needs its account key to resolve.
pub open spec fn step_requires_account(kind: TxKind) -> bool {
    kind is AccountCallContract || kind is ViewAccount
}

/// Whether this kind of step needs its contract key to resolve.
pub open spec fn step_requires_contract(kind: TxKind) -> bool {
    kind is AccountCallContract || kind is View || kind is SelfContractCall
}

/// The step names an account key and the state resolves it.
pub open spec fn account_resolved(tx: TxWrapper, s: State) -> bool {
    tx.account_spec() matches Some(a) && s_has_key(s.accounts_seq(), a@)
}

/// The step names a contract key and the state resolves it.
pub open spec fn contract_resolved(tx: TxWrapper, s: State) -> bool {
    tx.contract_spec() matches Some(c) && s_has_key(s.contracts_seq(), c@)
}

/// Every target this step's kind needs resolves in `s`; targets the kind
/// does not need are ignored, whether or not they resolve.
pub open spec fn step_resolves(tx: TxWrapper, s: State) -> bool {
    &&& step_requires_account(tx.kind_spec()) ==> account_resolved(tx, s)
    &&& step_requires_contract(tx.kind_spec()) ==> contract_resolved(tx, s)
}

/// The error a step that fails to resolve is reported with: the missing
/// account key first, else the missing contract key, each identified.
pub open spec fn step_err_matches(tx: TxWrapper, s: State, e: HelperError) -> bool {
    if step_requires_account(tx.kind_spec()) && !account_resolved(tx, s) {
        match tx.account_spec() {
            Some(a) => e matches HelperError::AccountNotFound(x) && x@ == a@,
            None => e matches HelperError::TransactionError(x) && x@
                == "the step names no account key"@,
        }
    } else {
        match tx.contract_spec() {
            Some(c) => e matches HelperError::ContractNotFound(x) && x@ == c@,
            None => e matches HelperError::TransactionError(x) && x@
                == "the step names no contract key"@,
        }
    }
}

/// The action `a` is the correct dispatch of step `tx` against state `s`:
/// its kind matches, its on-chain names are the resolved targets, and it
/// carries the step's function, arguments, balance and budget.
pub open spec fn action_matches(tx: TxWrapper, s: State, a: TxAction) -> bool {
    match tx.kind_spec() {
        TxKind::AccountCallContract => {
            &&& a matches TxAction::Call { signer_id, contract_id, function, args, deposit, gas }
            &&& tx.account_spec() matches Some(acc) && s_lookup(s.accounts_seq(), acc@) == Some(
                signer_id,
            )
            &&& tx.contract_spec() matches Some(con) && s_lookup(s.contracts_seq(), con@) == Some(
                contract_id,
            )
            &&& function@ == tx.function_spec()@
            &&& args.entries_seq() == tx.args_spec()
            &&& deposit == tx.near_or_zero()
            &&& gas == tx.gas_or_zero()
        },
        TxKind::SelfContractCall => {
            &&& a matches TxAction::SelfCall { contract_id, function, args, deposit, gas }
            &&& tx.contract_spec() matches Some(con) && s_lookup(s.contracts_seq(), con@) == Some(
                contract_id,
            )
            &&& function@ == tx.function_spec()@
            &&& args.entries_seq() == tx.args_spec()
            &&& deposit == tx.near_or_zero()
            &&& gas == tx.gas_or_zero()
        },
        TxKind::View => {
            &&& a matches TxAction::ViewCall { contract_id, function, args, gas }
            &&& tx.contract_spec() matches Some(con) && s_lookup(s.contracts_seq(), con@) == Some(
                contract_id,
            )
            &&& function@ == tx.function_spec()@
            &&& args.entries_seq() == tx.args_spec()
            &&& gas == tx.gas_or_zero()
        },
        TxKind::ViewAccount => {
            &&& a matches TxAction::ViewAccount { account_id }
            &&& tx.account_spec() matches Some(acc) && s_lookup(s.accounts_seq(), acc@) == Some(
                account_id,
            )
        },
    }
}

/// Resolves one step against the state: the targets its kind needs are
/// looked up by key, and the dispatchable action is assembled, or the
/// first missing target is reported.
pub fn resolve_tx(tx: &TxWrapper, state: &State) -> (r: Result<TxAction, HelperError>)
    requires
        state.wf(),
    ensures
        match r {
            Ok(a) => step_resolves(*tx, *state) && action_matches(*tx, *state, a),
            Err(e) => !step_resolves(*tx, *state) && step_err_matches(*tx, *state, e),
        },
{
    match tx.kind() {
        TxKind::ViewAccount => {
            match tx.account() {
                None => Err(
                    HelperError::TransactionError(
                        String::from_str("the step names no account key"),
                    ),
                ),
                Some(akey) => {
                    match state.account(akey.as_str()) {
                        Err(e) => Err(e),
                        Ok(id) => Ok(TxAction::ViewAccount { account_id: id.clone() }),
                    }
                },
            }
        },
        TxKind::AccountCallContract => {
            match tx.account() {
                None => Err(
                    HelperError::TransactionError(
                        String::from_str("the step names no account key"),
                    ),
                ),
                Some(akey) => {
                    match state.account(akey.as_str()) {
                        Err(e) => Err(e),
                        Ok(signer) => {
                            match tx.contract() {
                                None => Err(
                                    HelperError::TransactionError(
                                        String::from_str("the step names no contract key"),
                                    ),
                                ),
                                Some(ckey) => {
                                    match state.contract(ckey.as_str()) {
                                        Err(e) => Err(e),
                                        Ok(cid) => Ok(
                                            TxAction::Call {
                                                signer_id: signer.clone(),
                                                contract_id: cid.clone(),
                                                function: tx.function().to_owned(),
                                                args: tx.arguments().duplicate(),
                                                deposit: tx.near(),
                                                gas: tx.gas(),
                                            },
                                        ),
                                    }
                                },
                            }
                        },
                    }
                },
            }
        },
        TxKind::View => {
            match tx.contract() {
                None => Err(
                    HelperError::TransactionError(
                        String::from_str("the step names no contract key"),
                    ),
                ),
                Some(ckey) => {
                    match state.contract(ckey.as_str()) {
                        Err(e) => Err(e),
                        Ok(cid) => Ok(
                            TxAction::ViewCall {
                                contract_id: cid.clone(),
                                function: tx.function().to_owned(),
                                args: tx.arguments().duplicate(),
                                gas: tx.gas(),
                            },
                        ),
                    }
                },
            }
        },
        TxKind::SelfContractCall => {
            match tx.contract() {
                None => Err(
                    HelperError::TransactionError(
                        String::from_str("the step names no contract key"),
                    ),
                ),
                Some(ckey) => {
                    match state.contract(ckey.as_str()) {
                        Err(e) => Err(e),
                        Ok(cid) => Ok(
                            TxAction::SelfCall {
                                contract_id: cid.clone(),
                                function: tx.function().to_owned(),
                                args: tx.arguments().duplicate(),
                                deposit: tx.near(),
                                gas: tx.gas(),
                            },
                        ),
                    }
                },
            }
        },
    }
}

/// The result key a step's outcome is recorded under: its explicit label,
/// else its zero-based position within the batch.
pub open spec fn step_key(tx: TxWrapper, idx: usize) -> Key {
    match tx.label_spec() {
        Some(k) => k,
        None => Key::Index(idx),
    }
}

/// The ledger after recording the first `n` outcomes of the batch, in order.
pub open spec fn run_ledger(txs: Seq<TxWrapper>, outs: Seq<TxDetails>, n: int) -> Seq<
    (Key, TxDetails),
>
    decreases n,
{
    if n <= 0 {
        Seq::<(Key, TxDetails)>::empty()
    } else {
        k_insert(run_ledger(txs, outs, n - 1), step_key(txs[n - 1], (n - 1) as usize), outs[n - 1])
    }
}

/// Every step of the batch resolves against `s`.
pub open spec fn all_resolve(txs: Seq<TxWrapper>, s: State) -> bool {
    forall|i: int| 0 <= i < txs.len() ==> step_resolves(#[trigger] txs[i], s)
}

/// The position of the first step of the batch that does not resolve
/// against `s`; the batch length when every step resolves.
pub open spec fn first_unresolved(txs: Seq<TxWrapper>, s: State) -> int
    decreases txs.len(),
{
    if txs.len() == 0 {
        0
    } else if !step_resolves(txs[0], s) {
        0
    } else {
        1 + first_unresolved(txs.drop_first(), s)
    }
}

/// If the steps before `i` resolve and step `i` does not, then `i` is the
/// first unresolved position.
pub proof fn lemma_first_unresolved(txs: Seq<TxWrapper>, s: State, i: int)
    requires
        0 <= i < txs.len(),
        !step_resolves(txs[i], s),
        forall|j: int| 0 <= j < i ==> step_resolves(#[trigger] txs[j], s),
    ensures
        first_unresolved(txs, s) == i,
    decreases i,
{
    if i == 0 {
    } else {
        assert(step_resolves(txs[0], s));
        let rest = txs.drop_first();
        assert(rest[i - 1] == txs[i]);
        assert(forall|j: int| 0 <= j < i - 1 ==> step_resolves(#[trigger] rest[j], s)) by {
            assert(forall|j: int| 0 <= j < i - 1 ==> rest[j] == txs[j + 1]);
        }
        lemma_first_unresolved(rest, s, i - 1);
    }
}

/// One in-progress batch execution: the drained queue, the state the steps
/// resolve against, the position of the next step, and the ledger of the
/// outcomes recorded so far. The host asks for the next action, performs
/// it, and hands the outcome back; the machine decides everything else.
#[derive(Debug)]
pub struct ScenarioRun {
    state: State,
    txs: Vec<TxWrapper>,
    pos: usize,
    results: ChainResult,
}

impl ScenarioRun {
    /// The state the steps resolve against.
    pub closed spec fn run_state(self) -> State {
        self.state
    }

    /// The drained batch, in submission order.
    pub closed spec fn txs_seq(self) -> Seq<TxWrapper> {
        self.txs@
    }

    /// The position of the next step to dispatch.
    pub closed spec fn pos_spec(self) -> int {
        self.pos as int
    }

    /// The outcomes recorded so far, in order.
    pub closed spec fn entries_seq(self) -> Seq<(Key, TxDetails)> {
        self.results.entries_seq()
    }

    pub closed spec fn wf(self) -> bool {
        &&& self.state.wf()
        &&& self.results.wf()
        &&& self.results.state_opt() is None
        &&& self.pos <= self.txs@.len()
        &&& self.state.queue_opt() is None
    }

    /// Starts a run by draining the state's pending queue.
    pub fn new(state: State) -> (r: ScenarioRun)
        requires
            state.wf(),
        ensures
            r.wf(),
            r.txs_seq() == state.queue(),
            r.pos_spec() == 0,
            r.entries_seq() == Seq::<(Key, TxDetails)>::empty(),
            r.run_state().accounts_seq() == state.accounts_seq(),
            r.run_state().contracts_seq() == state.contracts_seq(),
            r.run_state().root_view() == state.root_view(),
            r.run_state().wf(),
    {
        let mut state = state;
        let txs = state.take_tx_scenarios();
        ScenarioRun { state, txs, pos: 0, results: ChainResult::new() }
    }

    /// The number of steps in the batch.
    pub fn steps_len(&self) -> (n: usize)
        ensures
            n == self.txs_seq().len(),
    {
        self.txs.len()
    }

    /// The position of the next step to dispatch.
    pub fn position(&self) -> (n: usize)
        ensures
            n == self.pos_spec(),
    {
        self.pos
    }

    /// Whether every step has been dispatched and recorded.
    pub fn is_done(&self) -> (r: bool)
        ensures
            r == (self.pos_spec() == self.txs_seq().len()),
    {
        self.pos == self.txs.len()
    }

    /// Resolves the next step into a dispatchable action, or reports its
    /// first missing target.
    pub fn next_action(&self) -> (r: Result<TxAction, HelperError>)
        requires
            self.wf(),
            self.pos_spec() < self.txs_seq().len(),
        ensures
            match r {
                Ok(a) => step_resolves(self.txs_seq()[self.pos_spec()], self.run_state())
                    && action_matches(self.txs_seq()[self.pos_spec()], self.run_state(), a),
                Err(e) => !step_resolves(self.txs_seq()[self.pos_spec()], self.run_state())
                    && step_err_matches(self.txs_seq()[self.pos_spec()], self.run_state(), e),
            },
    {
        resolve_tx(&self.txs[self.pos], &self.state)
    }

    /// Records the outcome of the step just dispatched under its result key
    /// and moves to the next step.
    pub fn record_outcome(&mut self, details: TxDetails)
        requires
            old(self).wf(),
            old(self).pos_spec() < old(self).txs_seq().len(),
        ensures
            final(self).wf(),
            final(self).txs_seq() == old(self).txs_seq(),
            final(self).run_state() == old(self).run_state(),
            final(self).pos_spec() == old(self).pos_spec() + 1,
            final(self).entries_seq() == k_insert(
                old(self).entries_seq(),
                step_key(old(self).txs_seq()[old(self).pos_spec()], old(self).pos_spec() as usize),
                details,
            ),
    {
        let n = self.txs.len();
        let key = match self.txs[self.pos].label() {
            Some(k) => k.duplicate(),
            None => Key::Index(self.pos),
        };
        self.results.add_tx_details(key, details);
        proof {
            assert(self.pos < n);
        }
        self.pos = self.pos + 1;
    }

    /// Ends the run: the drained state is attached to the ledger.
    pub fn finish(self) -> (r: ChainResult)
        requires
            self.wf(),
        ensures
            r.wf(),
            r.entries_seq() == self.entries_seq(),
            r.state_opt() == Some(self.run_state()),
    {
        let ScenarioRun { state, txs: _, pos: _, results } = self;
        let mut results = results;
        results.add_state(state);
        results
    }
}

impl TxWrapper {
    /// Chains this step and executes the whole pending batch against the
    /// given per-step outcomes, strictly in submission order: each step's
    /// result key is its label, else its batch position; a step whose
    /// needed targets do not all resolve aborts the batch with an error
    /// naming the first missing target, and no outcome is recorded.
    #[verifier::loop_isolation(false)]
    pub fn execute_with(self, outcomes: Vec<TxDetails>) -> (r: Result<ChainResult, HelperError>)
        requires
            self.state_spec() matches Some(st) && st.wf() && outcomes@.len() == st.queue().len()
                + 1,
        ensures
            ({
                let st = self.state_spec()->Some_0;
                let q = st.queue().push(self.detached());
                if all_resolve(q, st) {
                    &&& r matches Ok(cr)
                    &&& cr.wf()
                    &&& cr.entries_seq() == run_ledger(q, outcomes@, q.len() as int)
                    &&& cr.state_opt() matches Some(s2)
                    &&& s2.accounts_seq() == st.accounts_seq()
                    &&& s2.contracts_seq() == st.contracts_seq()
                    &&& s2.root_view() == st.root_view()
                    &&& s2.wf()
                    &&& s2.queue_opt() is None
                } else {
                    &&& r matches Err(e)
                    &&& 0 <= first_unresolved(q, st) < q.len()
                    &&& step_err_matches(q[first_unresolved(q, st)], st, e)
                }
            }),
    {
        let ghost st = self.state_spec()->Some_0;
        let ghost q = st.queue().push(self.detached());
        let ghost outs = outcomes@;
        let state = self.chain();
        let mut run = ScenarioRun::new(state);
        let mut outcomes = outcomes;
        let total = run.steps_len();
        let mut i: usize = 0;
        while i < total
            invariant
                run.wf(),
                total == q.len(),
                i == run.pos_spec(),
                i <= total,
                run.txs_seq() == q,
                outcomes@ == outs.skip(i as int),
                outs.len() == total,
                run.run_state().accounts_seq() == st.accounts_seq(),
                run.run_state().contracts_seq() == st.contracts_seq(),
                run.run_state().root_view() == st.root_view(),
                run.run_state().wf(),
                run.entries_seq() == run_ledger(q, outs, i as int),
                forall|j: int| 0 <= j < i ==> step_resolves(#[trigger] q[j], st),
            decreases total - i,
        {
            match run.next_action() {
                Err(e) => {
                    proof {
                        let gi = i as int;
                        assert(run.run_state().accounts_seq() == st.accounts_seq());
                        assert(run.run_state().contracts_seq() == st.contracts_seq());
                        assert(!step_resolves(q[gi], st));
                        assert(step_err_matches(q[gi], st, e));
                        assert(!all_resolve(q, st));
                        lemma_first_unresolved(q, st, gi);
                    }
                    return Err(e);
                },
                Ok(_action) => {
                    let details = outcomes.remove(0);
                    proof {
                        assert(outs.skip(i as int)[0] == outs[i as int]);
                        assert(outs.skip(i as int).remove(0) =~= outs.skip(i + 1));
                    }
                    run.record_outcome(details);
                },
            }
            i = i + 1;
        }
        proof {
            assert(all_resolve(q, st));
        }
        Ok(run.finish())
    }
}

} // verus!
