use vstd::prelude::*;

use crate::chain_result::{k_has_key, k_index_of, k_insert, k_unique, key_eq, Key};
use crate::mapspec::{s_has_key, s_index_of, s_insert, s_unique};
use crate::state_builder::RegEntry;
use crate::tx_details::TxDetails;
use indexmap::IndexMap;

verus! {

// The harness keeps its ordered maps in indexmap's `IndexMap`, which
// preserves insertion order and compares keys by content. Verified code
// reaches it only through the wrappers below; `smap_entries` names the
// entries a map holds, in order.

#[verifier::external_type_specification]
#[verifier::external_body]
#[verifier::reject_recursive_types(K)]
#[verifier::reject_recursive_types(V)]
#[verifier::reject_recursive_types(S)]
pub struct ExIndexMap<K, V, S>(IndexMap<K, V, S>);

pub uninterp spec fn smap_entries(m: IndexMap<String, String>) -> Seq<(String, String)>;

/// Relies on indexmap's IndexMap::new: creates a map with no entries.
#[verifier::external_body]
pub(crate) fn smap_new() -> (m: IndexMap<String, String>)
    ensures
        smap_entries(m) == Seq::<(String, String)>::empty(),
{
    IndexMap::new()
}

/// Relies on IndexMap::len: the number of entries.
#[verifier::external_body]
pub(crate) fn smap_len(m: &IndexMap<String, String>) -> (n: usize)
    ensures
        n == smap_entries(*m).len(),
{
    m.len()
}

/// Relies on IndexMap::get_index_of: the position of the entry whose key
/// equals `k` by content, else None.
#[verifier::external_body]
pub(crate) fn smap_find(m: &IndexMap<String, String>, k: &str) -> (r: Option<usize>)
    ensures
        match r {
            Some(i) => i < smap_entries(*m).len() && smap_entries(*m)[i as int].0@ == k@,
            None => !s_has_key(smap_entries(*m), k@),
        },
{
    m.get_index_of(k)
}

/// Relies on IndexMap::get_index: the key at a position, in insertion order.
#[verifier::external_body]
pub(crate) fn smap_key_at<'a>(m: &'a IndexMap<String, String>, i: usize) -> (r: &'a String)
    requires
        i < smap_entries(*m).len(),
    ensures
        *r == smap_entries(*m)[i as int].0,
{
    m.get_index(i).unwrap().0
}

/// Relies on IndexMap::get_index: the value at a position, in insertion order.
#[verifier::external_body]
pub(crate) fn smap_value_at<'a>(m: &'a IndexMap<String, String>, i: usize) -> (r: &'a String)
    requires
        i < smap_entries(*m).len(),
    ensures
        *r == smap_entries(*m)[i as int].1,
{
    m.get_index(i).unwrap().1
}

/// Relies on IndexMap::insert: an equivalent key keeps its place and its
/// stored key object and receives the new value, and the old value comes
/// back; a fresh key is appended and None comes back.
#[verifier::external_body]
pub(crate) fn smap_insert(m: &mut IndexMap<String, String>, k: String, v: String) -> (prev: Option<
    String,
>)
    ensures
        s_unique(smap_entries(*old(m))) ==> {
            &&& smap_entries(*final(m)) == s_insert(smap_entries(*old(m)), k, v)
            &&& prev == (if s_has_key(smap_entries(*old(m)), k@) {
                Some(smap_entries(*old(m))[s_index_of(smap_entries(*old(m)), k@)].1)
            } else {
                None::<String>
            })
        },
{
    m.insert(k, v)
}

pub uninterp spec fn rmap_entries(m: IndexMap<String, RegEntry>) -> Seq<(String, RegEntry)>;

/// Relies on indexmap's IndexMap::new: creates a map with no entries.
#[verifier::external_body]
pub(crate) fn rmap_new() -> (m: IndexMap<String, RegEntry>)
    ensures
        rmap_entries(m) == Seq::<(String, RegEntry)>::empty(),
{
    IndexMap::new()
}

/// Relies on IndexMap::len: the number of entries.
#[verifier::external_body]
pub(crate) fn rmap_len(m: &IndexMap<String, RegEntry>) -> (n: usize)
    ensures
        n == rmap_entries(*m).len(),
{
    m.len()
}

/// Relies on IndexMap::get_index_of: the position of the entry whose key
/// equals `k` by content, else None.
#[verifier::external_body]
pub(crate) fn rmap_find(m: &IndexMap<String, RegEntry>, k: &str) -> (r: Option<usize>)
    ensures
        match r {
            Some(i) => i < rmap_entries(*m).len() && rmap_entries(*m)[i as int].0@ == k@,
            None => !s_has_key(rmap_entries(*m), k@),
        },
{
    m.get_index_of(k)
}

/// Relies on IndexMap::get_index: the key at a position, in insertion order.
#[verifier::external_body]
pub(crate) fn rmap_key_at<'a>(m: &'a IndexMap<String, RegEntry>, i: usize) -> (r: &'a String)
    requires
        i < rmap_entries(*m).len(),
    ensures
        *r == rmap_entries(*m)[i as int].0,
{
    m.get_index(i).unwrap().0
}

/// Relies on IndexMap::get_index: the value at a position, in insertion order.
#[verifier::external_body]
pub(crate) fn rmap_value_at<'a>(m: &'a IndexMap<String, RegEntry>, i: usize) -> (r: &'a RegEntry)
    requires
        i < rmap_entries(*m).len(),
    ensures
        *r == rmap_entries(*m)[i as int].1,
{
    m.get_index(i).unwrap().1
}

/// Relies on IndexMap::insert: an equivalent key keeps its place and its
/// stored key object and receives the new value; a fresh key is appended.
#[verifier::external_body]
pub(crate) fn rmap_insert(m: &mut IndexMap<String, RegEntry>, k: String, v: RegEntry) -> (prev:
    Option<RegEntry>)
    ensures
        s_unique(rmap_entries(*old(m))) ==> {
            &&& rmap_entries(*final(m)) == s_insert(rmap_entries(*old(m)), k, v)
            &&& prev == (if s_has_key(rmap_entries(*old(m)), k@) {
                Some(rmap_entries(*old(m))[s_index_of(rmap_entries(*old(m)), k@)].1)
            } else {
                None::<RegEntry>
            })
        },
{
    m.insert(k, v)
}

pub uninterp spec fn kmap_entries(m: IndexMap<Key, TxDetails>) -> Seq<(Key, TxDetails)>;

/// Relies on indexmap's IndexMap::new: creates a map with no entries.
#[verifier::external_body]
pub(crate) fn kmap_new() -> (m: IndexMap<Key, TxDetails>)
    ensures
        kmap_entries(m) == Seq::<(Key, TxDetails)>::empty(),
{
    IndexMap::new()
}

/// Relies on IndexMap::len: the number of entries.
#[verifier::external_body]
pub(crate) fn kmap_len(m: &IndexMap<Key, TxDetails>) -> (n: usize)
    ensures
        n == kmap_entries(*m).len(),
{
    m.len()
}

/// Relies on IndexMap::get_index_of: the position of the entry whose key
/// equals `k`, else None.
#[verifier::external_body]
pub(crate) fn kmap_find(m: &IndexMap<Key, TxDetails>, k: &Key) -> (r: Option<usize>)
    ensures
        match r {
            Some(i) => i < kmap_entries(*m).len() && key_eq(kmap_entries(*m)[i as int].0, *k),
            None => !k_has_key(kmap_entries(*m), *k),
        },
{
    m.get_index_of(k)
}

/// Relies on IndexMap::get_index: the key at a position, in insertion order.
#[verifier::external_body]
pub(crate) fn kmap_key_at<'a>(m: &'a IndexMap<Key, TxDetails>, i: usize) -> (r: &'a Key)
    requires
        i < kmap_entries(*m).len(),
    ensures
        *r == kmap_entries(*m)[i as int].0,
{
    m.get_index(i).unwrap().0
}

/// Relies on IndexMap::get_index: the value at a position, in insertion order.
#[verifier::external_body]
pub(crate) fn kmap_value_at<'a>(m: &'a IndexMap<Key, TxDetails>, i: usize) -> (r: &'a TxDetails)
    requires
        i < kmap_entries(*m).len(),
    ensures
        *r == kmap_entries(*m)[i as int].1,
{
    m.get_index(i).unwrap().1
}

/// Relies on IndexMap::insert: an equivalent key keeps its place and its
/// stored key object and receives the new value; a fresh key is appended.
#[verifier::external_body]
pub(crate) fn kmap_insert(m: &mut IndexMap<Key, TxDetails>, k: Key, v: TxDetails) -> (prev: Option<
    TxDetails,
>)
    ensures
        k_unique(kmap_entries(*old(m))) ==> {
            &&& kmap_entries(*final(m)) == k_insert(kmap_entries(*old(m)), k, v)
            &&& prev == (if k_has_key(kmap_entries(*old(m)), k) {
                Some(kmap_entries(*old(m))[k_index_of(kmap_entries(*old(m)), k)].1)
            } else {
                None::<TxDetails>
            })
        },
{
    m.insert(k, v)
}

/// Relies on std's TryFrom of a vector into an array: it succeeds exactly
/// when the length matches, keeping the elements, and otherwise hands the
/// vector back.
#[verifier::external_body]
pub(crate) fn vec_into_array<const N: usize>(v: Vec<String>) -> (r: Result<[String; N], Vec<String>>)
    ensures
        match r {
            Ok(arr) => v@.len() == N && arr@ == v@,
            Err(v2) => v@.len() != N && v2@ == v@,
        },
{
    v.try_into()
}

} // verus!
