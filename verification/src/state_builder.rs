use vstd::prelude::*;
use vstd::string::*;

use crate::consts::{ALICE, BOB, CHARLIE, DAVE, EDWARD, FRED};
use crate::errors::HelperError;
use crate::imap::{
    rmap_entries, rmap_find, rmap_insert, rmap_key_at, rmap_len, rmap_new, rmap_value_at,
    smap_entries, smap_insert, smap_new,
};
use crate::mapspec::{
    lemma_s_insert_fresh, lemma_s_insert_unique, s_has_key, s_insert, s_unique,
};
use crate::state::State;
use crate::tx_wrapper::TxWrapper;
use crate::units::Nearable;
use indexmap::IndexMap;

verus! {

/// One provisioning request: a plain account with an initial balance, or a
/// contract with the path of its source artifact and an initial balance.
#[derive(Debug)]
pub enum RegEntry {
    Account { balance: u128 },
    Contract { path: String, balance: u128 },
}

/// The provisioning builder: one insertion-ordered ledger of registration
/// requests, account and contract keys sharing a single namespace.
/// Registering a key twice — as account, as contract, or mixed — fails and
/// leaves the ledger unchanged. Provisioning follows declaration order
/// across both kinds.
#[derive(Debug)]
pub struct StateBuilder {
    regs: IndexMap<String, RegEntry>,
}

impl StateBuilder {
    /// The registration requests, in declaration order.
    pub closed spec fn regs_seq(self) -> Seq<(String, RegEntry)> {
        rmap_entries(self.regs)
    }

    /// Registered keys are pairwise distinct.
    pub closed spec fn wf(self) -> bool {
        s_unique(self.regs_seq())
    }

    /// An empty provisioning ledger.
    pub fn new() -> (r: StateBuilder)
        ensures
            r.regs_seq() == Seq::<(String, RegEntry)>::empty(),
            r.wf(),
    {
        StateBuilder { regs: rmap_new() }
    }

    /// The number of registration requests.
    pub fn len(&self) -> (n: usize)
        ensures
            n == self.regs_seq().len(),
    {
        rmap_len(&self.regs)
    }

    /// Records a pending account under `id`, or fails if the key is
    /// registered under either kind; on failure the ledger is unchanged.
    pub fn register_account(&mut self, id: &str, balance: u128) -> (r: Result<(), HelperError>)
        requires
            old(self).wf(),
        ensures
            final(self).wf(),
            match r {
                Ok(_) => {
                    &&& !s_has_key(old(self).regs_seq(), id@)
                    &&& final(self).regs_seq().drop_last() == old(self).regs_seq()
                    &&& final(self).regs_seq().len() == old(self).regs_seq().len() + 1
                    &&& final(self).regs_seq().last().0@ == id@
                    &&& final(self).regs_seq().last().1 == (RegEntry::Account { balance })
                },
                Err(e) => {
                    &&& s_has_key(old(self).regs_seq(), id@)
                    &&& final(self).regs_seq() == old(self).regs_seq()
                    &&& (e matches HelperError::BuilderError(m) && m@
                        == "Couldn't add task for account with id `"@ + id@
                        + "` because it already exists"@)
                },
            },
    {
        match rmap_find(&self.regs, id) {
            Some(_) => Err(
                HelperError::BuilderError(
                    String::from_str("Couldn't add task for account with id `").concat(id).concat(
                        "` because it already exists",
                    ),
                ),
            ),
            None => {
                let key = id.to_owned();
                let entry = RegEntry::Account { balance };
                proof {
                    lemma_s_insert_fresh(self.regs_seq(), key, entry);
                    lemma_s_insert_unique(self.regs_seq(), key, entry);
                }
                rmap_insert(&mut self.regs, key, entry);
                Ok(())
            },
        }
    }

    /// Records a pending contract under `id`, or fails if the key is
    /// registered under either kind; on failure the ledger is unchanged.
    pub fn register_contract(&mut self, id: &str, path: &str, balance: u128) -> (r: Result<
        (),
        HelperError,
    >)
        requires
            old(self).wf(),
        ensures
            final(self).wf(),
            match r {
                Ok(_) => {
                    &&& !s_has_key(old(self).regs_seq(), id@)
                    &&& final(self).regs_seq().drop_last() == old(self).regs_seq()
                    &&& final(self).regs_seq().len() == old(self).regs_seq().len() + 1
                    &&& final(self).regs_seq().last().0@ == id@
                    &&& (final(self).regs_seq().last().1 matches RegEntry::Contract {
                        path: p,
                        balance: b,
                    } && p@ == path@ && b == balance)
                },
                Err(e) => {
                    &&& s_has_key(old(self).regs_seq(), id@)
                    &&& final(self).regs_seq() == old(self).regs_seq()
                    &&& (e matches HelperError::BuilderError(m) && m@
                        == "Couldn't add task for contract with id `"@ + id@
                        + "` because it already exists"@)
                },
            },
    {
        match rmap_find(&self.regs, id) {
            Some(_) => Err(
                HelperError::BuilderError(
                    String::from_str("Couldn't add task for contract with id `").concat(id).concat(
                        "` because it already exists",
                    ),
                ),
            ),
            None => {
                let key = id.to_owned();
                let entry = RegEntry::Contract { path: path.to_owned(), balance };
                proof {
                    lemma_s_insert_fresh(self.regs_seq(), key, entry);
                    lemma_s_insert_unique(self.regs_seq(), key, entry);
                }
                rmap_insert(&mut self.regs, key, entry);
                Ok(())
            },
        }
    }

    /// Registers an account, scaling the balance to base units, and hands
    /// the builder back for chaining.
    pub fn with_account<N: Nearable>(self, id: &str, balance: N) -> (r: Result<
        StateBuilder,
        HelperError,
    >)
        requires
            self.wf(),
            balance.parse_req(),
        ensures
            match r {
                Ok(b) => {
                    &&& !s_has_key(self.regs_seq(), id@)
                    &&& b.wf()
                    &&& b.regs_seq().drop_last() == self.regs_seq()
                    &&& b.regs_seq().len() == self.regs_seq().len() + 1
                    &&& b.regs_seq().last().0@ == id@
                    &&& b.regs_seq().last().1 == (RegEntry::Account { balance: balance.parsed() })
                },
                Err(e) => {
                    &&& s_has_key(self.regs_seq(), id@)
                    &&& (e matches HelperError::BuilderError(m) && m@
                        == "Couldn't add task for account with id `"@ + id@
                        + "` because it already exists"@)
                },
            },
    {
        let bal = balance.parse();
        let mut me = self;
        match me.register_account(id, bal) {
            Ok(_) => Ok(me),
            Err(e) => Err(e),
        }
    }

    /// Registers a contract, scaling the balance to base units, and hands
    /// the builder back for chaining.
    pub fn with_contract<N: Nearable>(self, id: &str, path: &str, balance: N) -> (r: Result<
        StateBuilder,
        HelperError,
    >)
        requires
            self.wf(),
            balance.parse_req(),
        ensures
            match r {
                Ok(b) => {
                    &&& !s_has_key(self.regs_seq(), id@)
                    &&& b.wf()
                    &&& b.regs_seq().drop_last() == self.regs_seq()
                    &&& b.regs_seq().len() == self.regs_seq().len() + 1
                    &&& b.regs_seq().last().0@ == id@
                    &&& (b.regs_seq().last().1 matches RegEntry::Contract { path: p, balance: b2 }
                        && p@ == path@ && b2 == balance.parsed())
                },
                Err(e) => {
                    &&& s_has_key(self.regs_seq(), id@)
                    &&& (e matches HelperError::BuilderError(m) && m@
                        == "Couldn't add task for contract with id `"@ + id@
                        + "` because it already exists"@)
                },
            },
    {
        let bal = balance.parse();
        let mut me = self;
        match me.register_contract(id, path, bal) {
            Ok(_) => Ok(me),
            Err(e) => Err(e),
        }
    }

    /// Registers the first well-known participant as an account.
    pub fn with_alice<N: Nearable>(self, balance: N) -> (r: Result<StateBuilder, HelperError>)
        requires
            self.wf(),
            balance.parse_req(),
        ensures
            match r {
                Ok(b) => !s_has_key(self.regs_seq(), ALICE@) && b.wf() && b.regs_seq().len()
                    == self.regs_seq().len() + 1 && b.regs_seq().drop_last() == self.regs_seq()
                    && b.regs_seq().last().0@ == ALICE@ && b.regs_seq().last().1 == (
                RegEntry::Account { balance: balance.parsed() }),
                Err(_) => s_has_key(self.regs_seq(), ALICE@),
            },
    {
        self.with_account(ALICE, balance)
    }

    /// Registers the second well-known participant as an account.
    pub fn with_bob<N: Nearable>(self, balance: N) -> (r: Result<StateBuilder, HelperError>)
        requires
            self.wf(),
            balance.parse_req(),
        ensures
            match r {
                Ok(b) => !s_has_key(self.regs_seq(), BOB@) && b.wf() && b.regs_seq().len()
                    == self.regs_seq().len() + 1 && b.regs_seq().drop_last() == self.regs_seq()
                    && b.regs_seq().last().0@ == BOB@ && b.regs_seq().last().1 == (
                RegEntry::Account { balance: balance.parsed() }),
                Err(_) => s_has_key(self.regs_seq(), BOB@),
            },
    {
        self.with_account(BOB, balance)
    }

    /// Registers the third well-known participant as an account.
    pub fn with_charlie<N: Nearable>(self, balance: N) -> (r: Result<StateBuilder, HelperError>)
        requires
            self.wf(),
            balance.parse_req(),
        ensures
            match r {
                Ok(b) => !s_has_key(self.regs_seq(), CHARLIE@) && b.wf() && b.regs_seq().len()
                    == self.regs_seq().len() + 1 && b.regs_seq().drop_last() == self.regs_seq()
                    && b.regs_seq().last().0@ == CHARLIE@ && b.regs_seq().last().1 == (
                RegEntry::Account { balance: balance.parsed() }),
                Err(_) => s_has_key(self.regs_seq(), CHARLIE@),
            },
    {
        self.with_account(CHARLIE, balance)
    }

    /// Registers the fourth well-known participant as an account.
    pub fn with_dave<N: Nearable>(self, balance: N) -> (r: Result<StateBuilder, HelperError>)
        requires
            self.wf(),
            balance.parse_req(),
        ensures
            match r {
                Ok(b) => !s_has_key(self.regs_seq(), DAVE@) && b.wf() && b.regs_seq().len()
                    == self.regs_seq().len() + 1 && b.regs_seq().drop_last() == self.regs_seq()
                    && b.regs_seq().last().0@ == DAVE@ && b.regs_seq().last().1 == (
                RegEntry::Account { balance: balance.parsed() }),
                Err(_) => s_has_key(self.regs_seq(), DAVE@),
            },
    {
        self.with_account(DAVE, balance)
    }

    /// Registers the fifth well-known participant as an account.
    pub fn with_edward<N: Nearable>(self, balance: N) -> (r: Result<StateBuilder, HelperError>)
        requires
            self.wf(),
            balance.parse_req(),
        ensures
            match r {
                Ok(b) => !s_has_key(self.regs_seq(), EDWARD@) && b.wf() && b.regs_seq().len()
                    == self.regs_seq().len() + 1 && b.regs_seq().drop_last() == self.regs_seq()
                    && b.regs_seq().last().0@ == EDWARD@ && b.regs_seq().last().1 == (
                RegEntry::Account { balance: balance.parsed() }),
                Err(_) => s_has_key(self.regs_seq(), EDWARD@),
            },
    {
        self.with_account(EDWARD, balance)
    }

    /// Registers the sixth well-known participant as an account.
    pub fn with_fred<N: Nearable>(self, balance: N) -> (r: Result<StateBuilder, HelperError>)
        requires
            self.wf(),
            balance.parse_req(),
        ensures
            match r {
                Ok(b) => !s_has_key(self.regs_seq(), FRED@) && b.wf() && b.regs_seq().len()
                    == self.regs_seq().len() + 1 && b.regs_seq().drop_last() == self.regs_seq()
                    && b.regs_seq().last().0@ == FRED@ && b.regs_seq().last().1 == (
                RegEntry::Account { balance: balance.parsed() }),
                Err(_) => s_has_key(self.regs_seq(), FRED@),
            },
    {
        self.with_account(FRED, balance)
    }
}

/// One creation request handed to the host: fund a subaccount under `key`
/// with `balance`, and if `wasm_path` is set, read that artifact and deploy
/// it to the new account.
#[derive(Debug)]
pub struct ProvisionRequest {
    pub key: String,
    pub balance: u128,
    pub wasm_path: Option<String>,
}

/// One in-progress provisioning: the registration ledger is walked in
/// declaration order; for each entry the host creates the funded
/// subaccount (and deploys the artifact for a contract) and records the
/// on-chain name here. Provisioning is all-or-nothing: a host that hits a
/// network failure drops the run, and no Network State exists.
#[derive(Debug)]
pub struct ProvisionRun {
    regs: IndexMap<String, RegEntry>,
    pos: usize,
    accounts: IndexMap<String, String>,
    contracts: IndexMap<String, String>,
}

impl ProvisionRun {
    /// The registration requests being provisioned.
    pub closed spec fn regs_seq(self) -> Seq<(String, RegEntry)> {
        rmap_entries(self.regs)
    }

    /// The position of the next registration to provision.
    pub closed spec fn pos_spec(self) -> int {
        self.pos as int
    }

    /// The accounts created so far: registered key to on-chain name.
    pub closed spec fn accounts_seq(self) -> Seq<(String, String)> {
        smap_entries(self.accounts)
    }

    /// The contracts deployed so far: registered key to on-chain name.
    pub closed spec fn contracts_seq(self) -> Seq<(String, String)> {
        smap_entries(self.contracts)
    }

    pub closed spec fn wf(self) -> bool {
        &&& s_unique(self.regs_seq())
        &&& self.pos <= self.regs_seq().len()
        &&& s_unique(self.accounts_seq())
        &&& s_unique(self.contracts_seq())
        &&& forall|t: int|
            0 <= t < self.accounts_seq().len() ==> s_has_key(
                self.regs_seq().take(self.pos as int),
                (#[trigger] self.accounts_seq()[t]).0@,
            )
        &&& forall|t: int|
            0 <= t < self.contracts_seq().len() ==> s_has_key(
                self.regs_seq().take(self.pos as int),
                (#[trigger] self.contracts_seq()[t]).0@,
            )
    }

    /// Starts provisioning the builder's registrations, in declaration
    /// order.
    pub fn begin(builder: StateBuilder) -> (r: ProvisionRun)
        requires
            builder.wf(),
        ensures
            r.wf(),
            r.regs_seq() == builder.regs_seq(),
            r.pos_spec() == 0,
            r.accounts_seq() == Seq::<(String, String)>::empty(),
            r.contracts_seq() == Seq::<(String, String)>::empty(),
    {
        let StateBuilder { regs } = builder;
        ProvisionRun { regs, pos: 0, accounts: smap_new(), contracts: smap_new() }
    }

    /// The next creation request, or None when every registration has been
    /// provisioned.
    pub fn next_request(&self) -> (r: Option<ProvisionRequest>)
        requires
            self.wf(),
        ensures
            match r {
                Some(req) => {
                    &&& self.pos_spec() < self.regs_seq().len()
                    &&& req.key@ == self.regs_seq()[self.pos_spec()].0@
                    &&& match self.regs_seq()[self.pos_spec()].1 {
                        RegEntry::Account { balance } => req.balance == balance
                            && req.wasm_path is None,
                        RegEntry::Contract { path, balance } => req.balance == balance && (
                        req.wasm_path matches Some(p) && p@ == path@),
                    }
                },
                None => self.pos_spec() == self.regs_seq().len(),
            },
    {
        let n = rmap_len(&self.regs);
        if self.pos >= n {
            return None;
        }
        let key = rmap_key_at(&self.regs, self.pos).clone();
        match rmap_value_at(&self.regs, self.pos) {
            RegEntry::Account { balance } => Some(
                ProvisionRequest { key, balance: *balance, wasm_path: None },
            ),
            RegEntry::Contract { path, balance } => Some(
                ProvisionRequest { key, balance: *balance, wasm_path: Some(path.clone()) },
            ),
        }
    }

    /// Records the on-chain name the host created for the current
    /// registration, and moves to the next one.
    pub fn record(&mut self, id: String)
        requires
            old(self).wf(),
            old(self).pos_spec() < old(self).regs_seq().len(),
        ensures
            final(self).wf(),
            final(self).regs_seq() == old(self).regs_seq(),
            final(self).pos_spec() == old(self).pos_spec() + 1,
            ({
                let entry = old(self).regs_seq()[old(self).pos_spec()];
                match entry.1 {
                    RegEntry::Account { .. } => {
                        &&& final(self).contracts_seq() == old(self).contracts_seq()
                        &&& final(self).accounts_seq().drop_last() == old(self).accounts_seq()
                        &&& final(self).accounts_seq().len() == old(self).accounts_seq().len() + 1
                        &&& final(self).accounts_seq().last().0@ == entry.0@
                        &&& final(self).accounts_seq().last().1 == id
                    },
                    RegEntry::Contract { .. } => {
                        &&& final(self).accounts_seq() == old(self).accounts_seq()
                        &&& final(self).contracts_seq().drop_last() == old(self).contracts_seq()
                        &&& final(self).contracts_seq().len() == old(self).contracts_seq().len()
                            + 1
                        &&& final(self).contracts_seq().last().0@ == entry.0@
                        &&& final(self).contracts_seq().last().1 == id
                    },
                }
            }),
    {
        let ghost regs = self.regs_seq();
        let ghost p = self.pos as int;
        let n = rmap_len(&self.regs);
        let key = rmap_key_at(&self.regs, self.pos).clone();
        proof {
            assert(key@ == regs[p].0@);
            assert(!s_has_key(regs.take(p), key@)) by {
                if s_has_key(regs.take(p), key@) {
                    let t = choose|t: int|
                        0 <= t < regs.take(p).len() && (#[trigger] regs.take(p)[t]).0@ == key@;
                    assert(regs[t].0@ == regs[p].0@);
                }
            }
            assert(!s_has_key(self.accounts_seq(), key@)) by {
                if s_has_key(self.accounts_seq(), key@) {
                    let t = choose|t: int|
                        0 <= t < self.accounts_seq().len() && (#[trigger] self.accounts_seq()[t]).0@
                            == key@;
                }
            }
            assert(!s_has_key(self.contracts_seq(), key@)) by {
                if s_has_key(self.contracts_seq(), key@) {
                    let t = choose|t: int|
                        0 <= t < self.contracts_seq().len() && (
                        #[trigger] self.contracts_seq()[t]).0@ == key@;
                }
            }
        }
        let is_account = match rmap_value_at(&self.regs, self.pos) {
            RegEntry::Account { .. } => true,
            RegEntry::Contract { .. } => false,
        };
        if is_account {
            proof {
                lemma_s_insert_fresh(self.accounts_seq(), key, id);
                lemma_s_insert_unique(self.accounts_seq(), key, id);
            }
            smap_insert(&mut self.accounts, key, id);
        } else {
            proof {
                lemma_s_insert_fresh(self.contracts_seq(), key, id);
                lemma_s_insert_unique(self.contracts_seq(), key, id);
            }
            smap_insert(&mut self.contracts, key, id);
        }
        self.pos = self.pos + 1;
        proof {
            assert(regs.take(p + 1).len() == p + 1);
            assert(forall|t: int|
                0 <= t < p ==> (#[trigger] regs.take(p)[t]) == regs.take(p + 1)[t]);
            assert(regs.take(p + 1)[p].0@ == key@);
            assert(forall|k: Seq<char>|
                s_has_key(regs.take(p), k) ==> s_has_key(regs.take(p + 1), k)) by {
                assert(forall|t: int|
                    0 <= t < regs.take(p).len() ==> ((#[trigger] regs.take(p)[t]) == regs.take(
                        p + 1,
                    )[t]));
            }
            assert(s_has_key(regs.take(p + 1), key@));
        }
    }

    /// Ends provisioning: the created accounts and deployed contracts and
    /// the root account's on-chain name become the Network State, with an
    /// empty pending queue.
    pub fn finish(self, root: String) -> (s: State)
        requires
            self.wf(),
            self.pos_spec() == self.regs_seq().len(),
        ensures
            s.wf(),
            s.root_view() == root@,
            s.accounts_seq() == self.accounts_seq(),
            s.contracts_seq() == self.contracts_seq(),
            s.queue_opt() == Some(Seq::<TxWrapper>::empty()),
    {
        let ProvisionRun { regs: _, pos: _, accounts, contracts } = self;
        State::from_maps(root, accounts, contracts, Vec::new())
    }
}

} // verus!
