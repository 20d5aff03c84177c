use vstd::prelude::*;

use crate::chain_result::{
    k_insert, k_lookup, k_unique, key_eq, key_is_label, lemma_k_insert_unique, Key,
};
use crate::executor::{run_ledger, step_key};
use crate::mapspec::{s_has_key, s_lookup};
use crate::state::State;
use crate::state_builder::RegEntry;
use crate::tx_details::TxDetails;
use crate::tx_wrapper::TxWrapper;

verus! {

/// Registering two distinct keys succeeds in either order: a key that is
/// absent from the ledger stays absent after a different key is recorded,
/// so the second registration is accepted as well.
pub proof fn lemma_register_distinct(
    regs: Seq<(String, RegEntry)>,
    k1: String,
    e1: RegEntry,
    k2: Seq<char>,
)
    requires
        !s_has_key(regs, k2),
        k1@ != k2,
    ensures
        !s_has_key(regs.push((k1, e1)), k2),
{
    let es2 = regs.push((k1, e1));
    assert(forall|t: int| 0 <= t < regs.len() ==> es2[t] == regs[t]);
    assert(forall|t: int| 0 <= t < es2.len() ==> (#[trigger] es2[t]).0@ != k2) by {
        assert(forall|t: int| 0 <= t < regs.len() ==> (#[trigger] regs[t]).0@ != k2);
        assert(es2[regs.len() as int].0@ == k1@);
    }
}

/// Registering a key a second time — as an account, a contract, or mixed —
/// is refused: once recorded under either kind, the key is present in the
/// single shared namespace.
pub proof fn lemma_register_duplicate(regs: Seq<(String, RegEntry)>, k1: String, e1: RegEntry)
    ensures
        s_has_key(regs.push((k1, e1)), k1@),
{
    let es2 = regs.push((k1, e1));
    assert(es2[regs.len() as int].0@ == k1@);
}

/// A batch with no explicit labels is recorded under exactly the positions
/// 0..N-1 in submission order, and the entry at position i is the i-th
/// outcome.
pub proof fn lemma_unlabeled_ledger(txs: Seq<TxWrapper>, outs: Seq<TxDetails>, n: int)
    requires
        0 <= n <= txs.len(),
        n <= outs.len(),
        txs.len() <= usize::MAX,
        forall|i: int| 0 <= i < n ==> (#[trigger] txs[i]).label_spec() is None,
    ensures
        run_ledger(txs, outs, n).len() == n,
        forall|i: int|
            0 <= i < n ==> #[trigger] run_ledger(txs, outs, n)[i] == (
            Key::Index(i as usize),
            outs[i],
            ),
    decreases n,
{
    if n > 0 {
        lemma_unlabeled_ledger(txs, outs, n - 1);
        let prev = run_ledger(txs, outs, n - 1);
        let k = step_key(txs[n - 1], (n - 1) as usize);
        assert(k == Key::Index((n - 1) as usize));
        assert(forall|t: int|
            0 <= t < prev.len() ==> !key_eq((#[trigger] prev[t]).0, k)) by {
            assert(forall|t: int|
                0 <= t < n - 1 ==> #[trigger] prev[t] == (Key::Index(t as usize), outs[t]));
        }
        assert(!crate::chain_result::k_has_key(prev, k));
        assert(run_ledger(txs, outs, n) == prev.push((k, outs[n - 1])));
    }
}

/// Two steps labeled identically within one batch: the ledger keeps one
/// entry under that label, holding the second step's outcome; the first
/// step's outcome is no longer retrievable by that label.
pub proof fn lemma_same_label_twice(
    tx1: TxWrapper,
    tx2: TxWrapper,
    o1: TxDetails,
    o2: TxDetails,
    l: Seq<char>,
)
    requires
        tx1.label_spec() matches Some(k1) && key_is_label(k1, l),
        tx2.label_spec() matches Some(k2) && key_is_label(k2, l),
    ensures
        ({
            let led = run_ledger(seq![tx1, tx2], seq![o1, o2], 2);
            &&& led.len() == 1
            &&& key_is_label(led[0].0, l)
            &&& led[0].1 == o2
        }),
{
    let txs = seq![tx1, tx2];
    let outs = seq![o1, o2];
    let k1 = tx1.label_spec()->Some_0;
    let k2 = tx2.label_spec()->Some_0;
    let led0 = run_ledger(txs, outs, 0);
    assert(led0 =~= Seq::<(Key, TxDetails)>::empty());
    let led1 = run_ledger(txs, outs, 1);
    assert(step_key(txs[0], 0usize) == k1);
    assert(led1 =~= seq![(k1, o1)]);
    let led2 = run_ledger(txs, outs, 2);
    assert(step_key(txs[1], 1usize) == k2);
    assert(key_eq(led1[0].0, k2));
    assert(crate::chain_result::k_has_key(led1, k2));
    assert(crate::chain_result::k_index_of(led1, k2) == 0) by {
        crate::chain_result::lemma_k_unique_index(led1, k2, 0);
    }
    assert(led2 =~= seq![(k1, o2)]);
}

/// Recording an outcome under a repeated key keeps one entry for that key,
/// holding the newest outcome; in a distinct-keyed ledger, a lookup after
/// the two inserts yields the second outcome.
pub proof fn lemma_label_overwrite(es: Seq<(Key, TxDetails)>, k: Key, o1: TxDetails, o2: TxDetails)
    requires
        k_unique(es),
    ensures
        k_lookup(k_insert(k_insert(es, k, o1), k, o2), k) == Some(o2),
        k_insert(k_insert(es, k, o1), k, o2).len() == k_insert(es, k, o1).len(),
{
    lemma_k_insert_unique(es, k, o1);
    lemma_k_insert_unique(k_insert(es, k, o1), k, o2);
    let es1 = k_insert(es, k, o1);
    assert(crate::chain_result::k_has_key(es1, k));
}

/// Execution hands the Network State back with its account and contract
/// mappings untouched: any key resolves after the batch exactly as it did
/// before, since steps only consume the pending queue.
pub proof fn lemma_state_round_trip(s1: State, s2: State, k: Seq<char>)
    requires
        s1.accounts_seq() == s2.accounts_seq(),
        s1.contracts_seq() == s2.contracts_seq(),
    ensures
        s_lookup(s1.accounts_seq(), k) == s_lookup(s2.accounts_seq(), k),
        s_lookup(s1.contracts_seq(), k) == s_lookup(s2.contracts_seq(), k),
        s_has_key(s1.accounts_seq(), k) == s_has_key(s2.accounts_seq(), k),
        s_has_key(s1.contracts_seq(), k) == s_has_key(s2.contracts_seq(), k),
{
}

} // verus!
