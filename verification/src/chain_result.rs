use vstd::prelude::*;
use vstd::string::*;

use crate::errors::HelperError;
use crate::state::State;
use crate::strutil::{contains_sub, match_at};
use crate::tx_details::TxDetails;
use indexmap::IndexMap;

verus! {

/// The address of one outcome in the result ledger: an explicit label, or
/// the step's zero-based position within its batch. The two kinds are never
/// coerced into one another.
#[derive(Debug, Clone, PartialEq, Eq, Hash)]
pub enum Key {
    Label(String),
    Index(usize),
}

impl Key {
    /// A copy equal to this key.
    pub fn duplicate(&self) -> (r: Key)
        ensures
            r == *self,
    {
        match self {
            Key::Label(s) => Key::Label(s.clone()),
            Key::Index(i) => Key::Index(*i),
        }
    }
}

/// `k` is a label whose characters are `l`.
pub open spec fn key_is_label(k: Key, l: Seq<char>) -> bool {
    k matches Key::Label(s) && s@ == l
}

/// Two keys address the same ledger entry: same kind, and label content or
/// position equal.
pub open spec fn key_eq(a: Key, b: Key) -> bool {
    match (a, b) {
        (Key::Label(x), Key::Label(y)) => x@ == y@,
        (Key::Index(i), Key::Index(j)) => i == j,
        _ => false,
    }
}

/// Some entry of `es` is addressed by `k`.
pub open spec fn k_has_key(es: Seq<(Key, TxDetails)>, k: Key) -> bool {
    exists|i: int| 0 <= i < es.len() && key_eq((#[trigger] es[i]).0, k)
}

/// The position of the entry of `es` addressed by `k`.
pub open spec fn k_index_of(es: Seq<(Key, TxDetails)>, k: Key) -> int {
    choose|i: int| 0 <= i < es.len() && key_eq((#[trigger] es[i]).0, k)
}

/// The entry keys of `es` are pairwise distinct.
pub open spec fn k_unique(es: Seq<(Key, TxDetails)>) -> bool {
    forall|i: int, j: int|
        0 <= i < j < es.len() ==> !key_eq((#[trigger] es[i]).0, (#[trigger] es[j]).0)
}

/// Insertion into the ledger: an existing key keeps its place and its
/// original key object and receives the new outcome; a fresh key is appended.
pub open spec fn k_insert(es: Seq<(Key, TxDetails)>, k: Key, v: TxDetails) -> Seq<
    (Key, TxDetails),
> {
    if k_has_key(es, k) {
        es.update(k_index_of(es, k), (es[k_index_of(es, k)].0, v))
    } else {
        es.push((k, v))
    }
}

/// The outcome stored under `k`, if any.
pub open spec fn k_lookup(es: Seq<(Key, TxDetails)>, k: Key) -> Option<TxDetails> {
    if k_has_key(es, k) {
        Some(es[k_index_of(es, k)].1)
    } else {
        None
    }
}

/// In a ledger with distinct keys, any position addressed by `k` is the
/// position `k_index_of` denotes.
pub proof fn lemma_k_unique_index(es: Seq<(Key, TxDetails)>, k: Key, i: int)
    requires
        k_unique(es),
        0 <= i < es.len(),
        key_eq(es[i].0, k),
    ensures
        k_has_key(es, k),
        k_index_of(es, k) == i,
{
    assert(k_has_key(es, k));
    let j = k_index_of(es, k);
    assert(0 <= j < es.len() && key_eq(es[j].0, k));
    if i < j {
        assert(!key_eq(es[i].0, es[j].0));
    } else if j < i {
        assert(!key_eq(es[j].0, es[i].0));
    }
}

/// Insertion preserves key distinctness, and afterwards `k` holds `v`.
pub proof fn lemma_k_insert_unique(es: Seq<(Key, TxDetails)>, k: Key, v: TxDetails)
    requires
        k_unique(es),
    ensures
        k_unique(k_insert(es, k, v)),
        k_has_key(k_insert(es, k, v), k),
        k_lookup(k_insert(es, k, v), k) == Some(v),
{
    let es2 = k_insert(es, k, v);
    if k_has_key(es, k) {
        let i = k_index_of(es, k);
        assert(0 <= i < es.len() && key_eq(es[i].0, k));
        assert(forall|t: int| 0 <= t < es2.len() && t != i ==> es2[t] == es[t]);
        assert(key_eq(es2[i].0, k));
        lemma_k_unique_index(es2, k, i);
    } else {
        assert(forall|t: int| 0 <= t < es.len() ==> es2[t] == es[t]);
        assert(key_eq(es2[es.len() as int].0, k));
        assert(forall|t: int| 0 <= t < es.len() ==> !key_eq((#[trigger] es2[t]).0, k));
        lemma_k_unique_index(es2, k, es.len() as int);
    }
}

/// The ordered, label- or position-addressable collection of normalized
/// outcomes of one executed batch, together with the terminal Network
/// State, retrievable exactly once.
#[derive(Debug)]
pub struct ChainResult {
    tx_results: IndexMap<Key, TxDetails>,
    state: Option<State>,
}

impl ChainResult {
    /// The recorded outcomes, in insertion order.
    pub closed spec fn entries_seq(self) -> Seq<(Key, TxDetails)> {
        crate::imap::kmap_entries(self.tx_results)
    }

    /// The attached terminal state, if not yet taken.
    pub closed spec fn state_opt(self) -> Option<State> {
        self.state
    }

    /// Entry keys are pairwise distinct.
    pub closed spec fn wf(self) -> bool {
        k_unique(self.entries_seq())
    }

    pub(crate) fn new() -> (r: ChainResult)
        ensures
            r.entries_seq() == Seq::<(Key, TxDetails)>::empty(),
            r.state_opt() is None,
            r.wf(),
    {
        ChainResult { tx_results: crate::imap::kmap_new(), state: None }
    }

    /// Records one outcome under its result key; a repeated label keeps its
    /// place and receives the new outcome.
    pub(crate) fn add_tx_details(&mut self, key: Key, tx_details: TxDetails)
        requires
            old(self).wf(),
        ensures
            final(self).entries_seq() == k_insert(old(self).entries_seq(), key, tx_details),
            final(self).state_opt() == old(self).state_opt(),
            final(self).wf(),
    {
        proof {
            lemma_k_insert_unique(self.entries_seq(), key, tx_details);
        }
        crate::imap::kmap_insert(&mut self.tx_results, key, tx_details);
    }

    /// The number of recorded outcomes.
    pub fn len(&self) -> (n: usize)
        ensures
            n == self.entries_seq().len(),
    {
        crate::imap::kmap_len(&self.tx_results)
    }

    /// The outcome recorded under an explicit label.
    pub fn tx(&self, label: &str) -> (r: Result<&TxDetails, HelperError>)
        ensures
            match r {
                Ok(v) => exists|i: int|
                    0 <= i < self.entries_seq().len() && key_is_label(
                        (#[trigger] self.entries_seq()[i]).0,
                        label@,
                    ) && *v == self.entries_seq()[i].1,
                Err(e) => (forall|i: int|
                    0 <= i < self.entries_seq().len() ==> !key_is_label(
                        (#[trigger] self.entries_seq()[i]).0,
                        label@,
                    )) && (e matches HelperError::ChainResultError(s) && s@ == "No tx with label "@
                    + label@),
            },
    {
        let k = Key::Label(label.to_owned());
        match crate::imap::kmap_find(&self.tx_results, &k) {
            Some(i) => {
                proof {
                    assert(key_eq(self.entries_seq()[i as int].0, k));
                }
                Ok(crate::imap::kmap_value_at(&self.tx_results, i))
            },
            None => {
                proof {
                    assert(forall|i: int|
                        0 <= i < self.entries_seq().len() ==> !key_is_label(
                            (#[trigger] self.entries_seq()[i]).0,
                            label@,
                        )) by {
                        assert(forall|i: int|
                            0 <= i < self.entries_seq().len() ==> !key_eq(
                                (#[trigger] self.entries_seq()[i]).0,
                                k,
                            ));
                    }
                }
                Err(
                    HelperError::ChainResultError(
                        String::from_str("No tx with label ").concat(label),
                    ),
                )
            },
        }
    }

    /// The outcome at a position in insertion order.
    pub fn tx_at(&self, index: usize) -> (r: &TxDetails)
        requires
            index < self.entries_seq().len(),
        ensures
            *r == self.entries_seq()[index as int].1,
    {
        crate::imap::kmap_value_at(&self.tx_results, index)
    }

    /// The result key at a position in insertion order.
    pub fn key_at(&self, index: usize) -> (r: &Key)
        requires
            index < self.entries_seq().len(),
        ensures
            *r == self.entries_seq()[index as int].0,
    {
        crate::imap::kmap_key_at(&self.tx_results, index)
    }

    pub(crate) fn add_state(&mut self, state: State)
        ensures
            final(self).entries_seq() == old(self).entries_seq(),
            final(self).state_opt() == Some(state),
            final(self).wf() == old(self).wf(),
    {
        self.state = Some(state);
    }

    /// Consumes the ledger and hands back the terminal Network State.
    pub fn into_state(self) -> (s: State)
        requires
            self.state_opt() is Some,
        ensures
            Some(s) == self.state_opt(),
    {
        match self.state {
            Some(s) => s,
            None => unreached(),
        }
    }
}

/// Searching a whole result for an error text.
pub trait Contains {
    /// Whether the value is an error whose description holds `substring`.
    spec fn contains_error_spec(&self, substring: Seq<char>) -> bool;

    fn contains_error(&self, substring: &str) -> (r: bool)
        ensures
            r == self.contains_error_spec(substring@),
    ;
}

impl Contains for Result<ChainResult, HelperError> {
    open spec fn contains_error_spec(&self, substring: Seq<char>) -> bool {
        match self {
            Ok(_) => false,
            Err(e) => exists|i: int| match_at(e.message_view(), substring, i),
        }
    }

    fn contains_error(&self, substring: &str) -> (r: bool) {
        match self {
            Ok(_) => false,
            Err(e) => {
                let msg = e.message();
                contains_sub(msg.as_str(), substring)
            },
        }
    }
}

} // verus!
