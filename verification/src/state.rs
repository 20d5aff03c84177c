use vstd::prelude::*;
use vstd::string::*;

use crate::args::Arguments;
use crate::errors::HelperError;
use crate::imap::{smap_entries, smap_find, smap_insert, smap_key_at, smap_new, smap_value_at};
use crate::mapspec::{
    lemma_s_build_unique, lemma_s_insert_unique, lemma_s_unique_index, s_build, s_has_key,
    s_index_of, s_lookup, s_unique,
};
use crate::tx_wrapper::{TxKind, TxWrapper};
use indexmap::IndexMap;

verus! {

/// The post-provisioning snapshot of the network: the root account's
/// on-chain name, the created accounts and deployed contracts (each an
/// insertion-ordered mapping from registered key to on-chain name), and the
/// queue of pending scenario steps. The queue's owner is this value alone;
/// chaining a step moves the whole state through the step and back.
#[derive(Debug)]
pub struct State {
    root: String,
    accounts: IndexMap<String, String>,
    contracts: IndexMap<String, String>,
    tx_scenarios: Option<Vec<TxWrapper>>,
}

impl State {
    /// The root account's on-chain name.
    pub closed spec fn root_view(self) -> Seq<char> {
        self.root@
    }

    /// The account mapping: registered key to on-chain name, in declaration
    /// order.
    pub closed spec fn accounts_seq(self) -> Seq<(String, String)> {
        smap_entries(self.accounts)
    }

    /// The contract mapping: registered key to on-chain name, in declaration
    /// order.
    pub closed spec fn contracts_seq(self) -> Seq<(String, String)> {
        smap_entries(self.contracts)
    }

    /// The pending queue, or None when it has been drained.
    pub closed spec fn queue_opt(self) -> Option<Seq<TxWrapper>> {
        match self.tx_scenarios {
            Some(v) => Some(v@),
            None => None,
        }
    }

    /// The pending queue; a drained queue is empty.
    pub open spec fn queue(self) -> Seq<TxWrapper> {
        match self.queue_opt() {
            Some(q) => q,
            None => Seq::<TxWrapper>::empty(),
        }
    }

    /// Both mappings have content-distinct keys.
    pub closed spec fn wf(self) -> bool {
        s_unique(self.accounts_seq()) && s_unique(self.contracts_seq())
    }

    /// Builds a snapshot from plain entries; repeated keys keep their first
    /// position and last value, as in provisioning maps.
    pub fn new(root: String, accounts: Vec<(String, String)>, contracts: Vec<(String, String)>) -> (s:
        State)
        ensures
            s.wf(),
            s.root_view() == root@,
            s.accounts_seq() == s_build(accounts@),
            s.contracts_seq() == s_build(contracts@),
            s_unique(accounts@) ==> s.accounts_seq() == accounts@,
            s_unique(contracts@) ==> s.contracts_seq() == contracts@,
            s.queue_opt() == Some(Seq::<TxWrapper>::empty()),
    {
        let ghost aseq = accounts@;
        let ghost cseq = contracts@;
        let accounts_map = Self::build_map(accounts);
        let contracts_map = Self::build_map(contracts);
        proof {
            lemma_s_build_unique(aseq);
            lemma_s_build_unique(cseq);
            if s_unique(aseq) {
                crate::mapspec::lemma_s_build_id(aseq);
            }
            if s_unique(cseq) {
                crate::mapspec::lemma_s_build_id(cseq);
            }
        }
        State {
            root,
            accounts: accounts_map,
            contracts: contracts_map,
            tx_scenarios: Some(Vec::new()),
        }
    }

    fn build_map(entries: Vec<(String, String)>) -> (m: IndexMap<String, String>)
        ensures
            smap_entries(m) == s_build(entries@),
    {
        let mut m = smap_new();
        proof {
            assert(s_build(entries@.take(0)) =~= Seq::<(String, String)>::empty());
        }
        let n = entries.len();
        let mut i: usize = 0;
        while i < n
            invariant
                n == entries@.len(),
                i <= n,
                smap_entries(m) == s_build(entries@.take(i as int)),
                s_unique(smap_entries(m)),
            decreases n - i,
        {
            let k = entries[i].0.clone();
            let v = entries[i].1.clone();
            proof {
                lemma_s_insert_unique(smap_entries(m), k, v);
                assert(entries@.take(i + 1).drop_last() =~= entries@.take(i as int));
                assert(entries@.take(i + 1).last() == entries@[i as int]);
                assert((k, v) == entries@[i as int]);
            }
            smap_insert(&mut m, k, v);
            i = i + 1;
        }
        proof {
            assert(entries@.take(n as int) =~= entries@);
        }
        m
    }

    /// Builds a snapshot directly from already-provisioned maps.
    pub(crate) fn from_maps(
        root: String,
        accounts: IndexMap<String, String>,
        contracts: IndexMap<String, String>,
        scenarios: Vec<TxWrapper>,
    ) -> (s: State)
        requires
            s_unique(smap_entries(accounts)),
            s_unique(smap_entries(contracts)),
        ensures
            s.wf(),
            s.root_view() == root@,
            s.accounts_seq() == smap_entries(accounts),
            s.contracts_seq() == smap_entries(contracts),
            s.queue_opt() == Some(scenarios@),
    {
        State { root, accounts, contracts, tx_scenarios: Some(scenarios) }
    }

    /// Appends a fully configured step to the pending queue.
    pub fn add_tx_scenario(&mut self, tx: TxWrapper)
        ensures
            final(self).queue_opt() == Some(old(self).queue().push(tx)),
            final(self).accounts_seq() == old(self).accounts_seq(),
            final(self).contracts_seq() == old(self).contracts_seq(),
            final(self).root_view() == old(self).root_view(),
            final(self).wf() == old(self).wf(),
    {
        let cur = self.tx_scenarios.take();
        match cur {
            Some(mut v) => {
                v.push(tx);
                self.tx_scenarios = Some(v);
            },
            None => {
                let mut v: Vec<TxWrapper> = Vec::new();
                v.push(tx);
                self.tx_scenarios = Some(v);
                proof {
                    assert(old(self).queue().push(tx) =~= v@);
                }
            },
        }
    }

    /// Removes and returns the whole pending queue; a second call returns
    /// an empty vector.
    pub fn take_tx_scenarios(&mut self) -> (txs: Vec<TxWrapper>)
        ensures
            txs@ == old(self).queue(),
            final(self).queue_opt() is None,
            final(self).accounts_seq() == old(self).accounts_seq(),
            final(self).contracts_seq() == old(self).contracts_seq(),
            final(self).root_view() == old(self).root_view(),
            final(self).wf() == old(self).wf(),
    {
        match self.tx_scenarios.take() {
            Some(v) => v,
            None => Vec::new(),
        }
    }

    /// The root account's on-chain name.
    pub fn root(&self) -> (r: &String)
        ensures
            r@ == self.root_view(),
    {
        &self.root
    }

    /// The on-chain name of the account registered under `id`.
    pub fn account(&self, id: &str) -> (r: Result<&String, HelperError>)
        requires
            self.wf(),
        ensures
            match r {
                Ok(v) => s_lookup(self.accounts_seq(), id@) == Some(*v),
                Err(e) => !s_has_key(self.accounts_seq(), id@) && (e matches
                    HelperError::AccountNotFound(s) && s@ == id@),
            },
    {
        match smap_find(&self.accounts, id) {
            Some(i) => {
                proof {
                    lemma_s_unique_index(self.accounts_seq(), id@, i as int);
                }
                Ok(smap_value_at(&self.accounts, i))
            },
            None => Err(HelperError::AccountNotFound(id.to_owned())),
        }
    }

    /// The on-chain name of the contract registered under `id`.
    pub fn contract(&self, id: &str) -> (r: Result<&String, HelperError>)
        requires
            self.wf(),
        ensures
            match r {
                Ok(v) => s_lookup(self.contracts_seq(), id@) == Some(*v),
                Err(e) => !s_has_key(self.contracts_seq(), id@) && (e matches
                    HelperError::ContractNotFound(s) && s@ == id@),
            },
    {
        match smap_find(&self.contracts, id) {
            Some(i) => {
                proof {
                    lemma_s_unique_index(self.contracts_seq(), id@, i as int);
                }
                Ok(smap_value_at(&self.contracts, i))
            },
            None => Err(HelperError::ContractNotFound(id.to_owned())),
        }
    }

    /// The on-chain name of the contract registered under `id`, owned.
    pub fn contract_id(&self, id: &str) -> (r: Result<String, HelperError>)
        requires
            self.wf(),
        ensures
            match r {
                Ok(v) => s_lookup(self.contracts_seq(), id@) == Some(v),
                Err(e) => !s_has_key(self.contracts_seq(), id@) && (e matches
                    HelperError::ContractNotFound(s) && s@ == id@),
            },
    {
        match self.contract(id) {
            Ok(v) => Ok(v.clone()),
            Err(e) => Err(e),
        }
    }

    /// The canonical registered key equal in content to `id`, if the
    /// contract mapping holds one.
    pub fn contract_key(&self, id: &str) -> (r: Option<&String>)
        ensures
            match r {
                Some(k) => s_has_key(self.contracts_seq(), id@) && k@ == id@,
                None => !s_has_key(self.contracts_seq(), id@),
            },
    {
        match smap_find(&self.contracts, id) {
            Some(i) => Some(smap_key_at(&self.contracts, i)),
            None => None,
        }
    }

    /// The canonical registered key equal in content to `id`, if the
    /// account mapping holds one.
    pub fn account_key(&self, id: &str) -> (r: Option<&String>)
        ensures
            match r {
                Some(k) => s_has_key(self.accounts_seq(), id@) && k@ == id@,
                None => !s_has_key(self.accounts_seq(), id@),
            },
    {
        match smap_find(&self.accounts, id) {
            Some(i) => Some(smap_key_at(&self.accounts, i)),
            None => None,
        }
    }

    /// Builds an account-inspection step for the account registered under
    /// `id`; the key is resolved at execution time, not here.
    pub fn view_account(self, id: &str) -> (r: Result<TxWrapper, HelperError>)
        ensures
            match r {
                Ok(tx) => {
                    &&& tx.account_spec() matches Some(a) && a@ == id@
                    &&& tx.contract_spec() is None
                    &&& tx.function_spec()@ == "view_balance"@
                    &&& tx.args_spec() == Seq::<(String, crate::args::ArgValue)>::empty()
                    &&& tx.kind_spec() == TxKind::ViewAccount
                    &&& tx.state_spec() == Some(self)
                    &&& tx.near_spec() is None
                    &&& tx.gas_spec() is None
                    &&& tx.label_spec() is None
                },
                Err(_) => false,
            },
    {
        let ret = TxWrapper::new(
            Some(id.to_owned()),
            None,
            String::from_str("view_balance"),
            Arguments::new(),
            TxKind::ViewAccount,
            self,
        );
        Ok(ret)
    }

    /// The on-chain names of all provisioned participants: first the
    /// contracts, then the accounts, each group in declaration order,
    /// destructured into an array of the expected size.
    pub fn string_ids<const N: usize>(&self) -> (r: Result<[String; N], HelperError>)
        ensures
            match r {
                Ok(arr) => N == self.contracts_seq().len() + self.accounts_seq().len() && arr@
                    == self.contracts_seq().map_values(|e: (String, String)| e.1)
                    + self.accounts_seq().map_values(|e: (String, String)| e.1),
                Err(e) => N != self.contracts_seq().len() + self.accounts_seq().len() && (e matches
                    HelperError::DestructuringError(m) && m@
                    == "The provided amount of accounts isn't valid for the current state"@),
            },
    {
        let mut v: Vec<String> = Vec::new();
        let nc = crate::imap::smap_len(&self.contracts);
        proof {
            assert(v@ =~= self.contracts_seq().take(0).map_values(|e: (String, String)| e.1));
        }
        let mut i: usize = 0;
        while i < nc
            invariant
                nc == self.contracts_seq().len(),
                i <= nc,
                v@ == self.contracts_seq().take(i as int).map_values(
                    |e: (String, String)| e.1,
                ),
            decreases nc - i,
        {
            v.push(smap_value_at(&self.contracts, i).clone());
            proof {
                assert(self.contracts_seq().take(i + 1).map_values(|e: (String, String)| e.1)
                    =~= self.contracts_seq().take(i as int).map_values(
                    |e: (String, String)| e.1,
                ).push(self.contracts_seq()[i as int].1));
            }
            i = i + 1;
        }
        let na = crate::imap::smap_len(&self.accounts);
        proof {
            assert(self.contracts_seq().take(nc as int) =~= self.contracts_seq());
            assert(v@ =~= self.contracts_seq().map_values(|e: (String, String)| e.1)
                + self.accounts_seq().take(0).map_values(|e: (String, String)| e.1));
        }
        let mut j: usize = 0;
        while j < na
            invariant
                na == self.accounts_seq().len(),
                j <= na,
                v@ == self.contracts_seq().map_values(|e: (String, String)| e.1)
                    + self.accounts_seq().take(j as int).map_values(|e: (String, String)| e.1),
            decreases na - j,
        {
            v.push(smap_value_at(&self.accounts, j).clone());
            proof {
                assert(self.accounts_seq().take(j + 1).map_values(|e: (String, String)| e.1)
                    =~= self.accounts_seq().take(j as int).map_values(
                    |e: (String, String)| e.1,
                ).push(self.accounts_seq()[j as int].1));
                assert(v@ =~= self.contracts_seq().map_values(|e: (String, String)| e.1)
                    + self.accounts_seq().take(j + 1).map_values(|e: (String, String)| e.1));
            }
            j = j + 1;
        }
        proof {
            assert(self.contracts_seq().take(nc as int) =~= self.contracts_seq());
            assert(self.accounts_seq().take(na as int) =~= self.accounts_seq());
        }
        match crate::imap::vec_into_array::<N>(v) {
            Ok(arr) => Ok(arr),
            Err(_) => Err(
                HelperError::DestructuringError(
                    String::from_str(
                        "The provided amount of accounts isn't valid for the current state",
                    ),
                ),
            ),
        }
    }

    /// The account registered under the first well-known participant name.
    pub fn alice(&self) -> (r: Result<&String, HelperError>)
        requires
            self.wf(),
        ensures
            match r {
                Ok(v) => s_lookup(self.accounts_seq(), "alice"@) == Some(*v),
                Err(e) => !s_has_key(self.accounts_seq(), "alice"@) && (e matches
                    HelperError::AccountNotFound(s) && s@ == "alice"@),
            },
    {
        self.account("alice")
    }

    /// The on-chain name of that account, owned.
    pub fn alice_id(&self) -> (r: Result<String, HelperError>)
        requires
            self.wf(),
        ensures
            match r {
                Ok(v) => s_lookup(self.accounts_seq(), "alice"@) == Some(v),
                Err(e) => !s_has_key(self.accounts_seq(), "alice"@) && (e matches
                    HelperError::AccountNotFound(s) && s@ == "alice"@),
            },
    {
        match self.alice() {
            Ok(v) => Ok(v.clone()),
            Err(e) => Err(e),
        }
    }

    /// The account registered under the second well-known participant name.
    pub fn bob(&self) -> (r: Result<&String, HelperError>)
        requires
            self.wf(),
        ensures
            match r {
                Ok(v) => s_lookup(self.accounts_seq(), "bob"@) == Some(*v),
                Err(e) => !s_has_key(self.accounts_seq(), "bob"@) && (e matches
                    HelperError::AccountNotFound(s) && s@ == "bob"@),
            },
    {
        self.account("bob")
    }
}

} // verus!
