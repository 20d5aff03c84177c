use vstd::prelude::*;

verus! {

// The mathematical model of an insertion-ordered, string-keyed map: a
// sequence of (key, value) entries whose keys are pairwise distinct as
// character sequences. Lookups compare keys by content, never by identity.

/// Some entry of `es` has a key whose characters are `k`.
pub open spec fn s_has_key<V>(es: Seq<(String, V)>, k: Seq<char>) -> bool {
    exists|i: int| 0 <= i < es.len() && (#[trigger] es[i]).0@ == k
}

/// The position of an entry of `es` whose key characters are `k`.
pub open spec fn s_index_of<V>(es: Seq<(String, V)>, k: Seq<char>) -> int {
    choose|i: int| 0 <= i < es.len() && (#[trigger] es[i]).0@ == k
}

/// The entry keys of `es` are pairwise distinct by content.
pub open spec fn s_unique<V>(es: Seq<(String, V)>) -> bool {
    forall|i: int, j: int|
        0 <= i < j < es.len() ==> (#[trigger] es[i]).0@ != (#[trigger] es[j]).0@
}

/// Insertion into an ordered map: an existing key keeps its place and its
/// original key object and receives the new value; a fresh key is appended.
pub open spec fn s_insert<V>(es: Seq<(String, V)>, k: String, v: V) -> Seq<(String, V)> {
    if s_has_key(es, k@) {
        es.update(s_index_of(es, k@), (es[s_index_of(es, k@)].0, v))
    } else {
        es.push((k, v))
    }
}

/// The value stored under key `k`, if any.
pub open spec fn s_lookup<V>(es: Seq<(String, V)>, k: Seq<char>) -> Option<V> {
    if s_has_key(es, k) {
        Some(es[s_index_of(es, k)].1)
    } else {
        None
    }
}

/// The map built by inserting the entries of `es` in order into an empty map.
pub open spec fn s_build<V>(es: Seq<(String, V)>) -> Seq<(String, V)>
    decreases es.len(),
{
    if es.len() == 0 {
        Seq::<(String, V)>::empty()
    } else {
        s_insert(s_build(es.drop_last()), es.last().0, es.last().1)
    }
}

/// A built map always has distinct keys.
pub proof fn lemma_s_build_unique<V>(es: Seq<(String, V)>)
    ensures
        s_unique(s_build(es)),
    decreases es.len(),
{
    if es.len() == 0 {
        assert(s_unique(s_build(es)));
    } else {
        lemma_s_build_unique(es.drop_last());
        lemma_s_insert_unique(s_build(es.drop_last()), es.last().0, es.last().1);
    }
}

/// Building from entries whose keys are already distinct reproduces them.
pub proof fn lemma_s_build_id<V>(es: Seq<(String, V)>)
    requires
        s_unique(es),
    ensures
        s_build(es) == es,
    decreases es.len(),
{
    if es.len() == 0 {
        assert(s_build(es) =~= es);
    } else {
        let front = es.drop_last();
        assert(s_unique(front));
        lemma_s_build_id(front);
        assert(forall|t: int| 0 <= t < front.len() ==> (#[trigger] front[t]).0@ != es.last().0@);
        assert(!s_has_key(front, es.last().0@));
        assert(s_build(es) =~= es);
    }
}

/// In a map with distinct keys, any position holding key `k` is the position
/// `s_index_of` denotes.
pub proof fn lemma_s_unique_index<V>(es: Seq<(String, V)>, k: Seq<char>, i: int)
    requires
        s_unique(es),
        0 <= i < es.len(),
        es[i].0@ == k,
    ensures
        s_has_key(es, k),
        s_index_of(es, k) == i,
{
    assert(s_has_key(es, k));
    let j = s_index_of(es, k);
    assert(0 <= j < es.len() && es[j].0@ == k);
    if i < j {
        assert(es[i].0@ != es[j].0@);
    } else if j < i {
        assert(es[j].0@ != es[i].0@);
    }
}

/// Insertion preserves key distinctness.
pub proof fn lemma_s_insert_unique<V>(es: Seq<(String, V)>, k: String, v: V)
    requires
        s_unique(es),
    ensures
        s_unique(s_insert(es, k, v)),
        s_has_key(s_insert(es, k, v), k@),
        s_lookup(s_insert(es, k, v), k@) == Some(v),
{
    let es2 = s_insert(es, k, v);
    if s_has_key(es, k@) {
        let i = s_index_of(es, k@);
        assert(0 <= i < es.len() && es[i].0@ == k@);
        assert(forall|t: int| 0 <= t < es2.len() && t != i ==> es2[t] == es[t]);
        assert(es2[i].0@ == k@);
        lemma_s_unique_index(es2, k@, i);
    } else {
        assert(forall|t: int| 0 <= t < es.len() ==> es2[t] == es[t]);
        assert(es2[es.len() as int].0@ == k@);
        assert(forall|t: int| 0 <= t < es.len() ==> (#[trigger] es2[t]).0@ != k@);
        lemma_s_unique_index(es2, k@, es.len() as int);
    }
}

/// Inserting a fresh key appends and leaves earlier entries untouched.
pub proof fn lemma_s_insert_fresh<V>(es: Seq<(String, V)>, k: String, v: V)
    requires
        !s_has_key(es, k@),
    ensures
        s_insert(es, k, v) == es.push((k, v)),
{
}

} // verus!
