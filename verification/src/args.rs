use vstd::prelude::*;

use crate::mapspec::{s_has_key, s_insert, s_unique};

verus! {

/// One named-argument value: the structured data a step hands to the
/// function it calls. The host side renders it as JSON before dispatch.
#[derive(Debug)]
pub enum ArgValue {
    Null,
    Bool(bool),
    UInt(u64),
    Int(i64),
    Str(String),
}

impl ArgValue {
    /// A copy equal to this value.
    pub fn duplicate(&self) -> (r: ArgValue)
        ensures
            r == *self,
    {
        match self {
            ArgValue::Null => ArgValue::Null,
            ArgValue::Bool(b) => ArgValue::Bool(*b),
            ArgValue::UInt(u) => ArgValue::UInt(*u),
            ArgValue::Int(i) => ArgValue::Int(*i),
            ArgValue::Str(s) => ArgValue::Str(s.clone()),
        }
    }
}

/// The named arguments of one step: an insertion-ordered mapping with
/// content-distinct keys; inserting an existing key replaces its value
/// in place.
#[derive(Debug)]
pub struct Arguments {
    entries: Vec<(String, ArgValue)>,
}

impl Arguments {
    /// The entries this mapping holds, in order.
    pub closed spec fn entries_seq(self) -> Seq<(String, ArgValue)> {
        self.entries@
    }

    /// Keys are pairwise distinct by content.
    pub closed spec fn wf(self) -> bool {
        s_unique(self.entries@)
    }

    pub fn new() -> (r: Arguments)
        ensures
            r.entries_seq() == Seq::<(String, ArgValue)>::empty(),
            r.wf(),
    {
        Arguments { entries: Vec::new() }
    }

    pub fn len(&self) -> (n: usize)
        ensures
            n == self.entries_seq().len(),
    {
        self.entries.len()
    }

    /// Adds `value` under `key`; an existing key keeps its place and
    /// receives the new value.
    pub fn insert(&mut self, key: String, value: ArgValue)
        requires
            old(self).wf(),
        ensures
            final(self).entries_seq() == s_insert(old(self).entries_seq(), key, value),
            final(self).wf(),
    {
        proof {
            crate::mapspec::lemma_s_insert_unique(self.entries@, key, value);
        }
        let mut i: usize = 0;
        while i < self.entries.len()
            invariant
                s_unique(self.entries@),
                i <= self.entries@.len(),
                forall|t: int| 0 <= t < i ==> (#[trigger] self.entries@[t]).0@ != key@,
                self.entries@ == old(self).entries_seq(),
            decreases self.entries@.len() - i,
        {
            if self.entries[i].0 == key {
                proof {
                    crate::mapspec::lemma_s_unique_index(self.entries@, key@, i as int);
                }
                let (stored_key, _old_value) = self.entries.remove(i);
                self.entries.insert(i, (stored_key, value));
                proof {
                    assert(self.entries@ =~= s_insert(old(self).entries_seq(), key, value));
                }
                return ;
            }
            i = i + 1;
        }
        proof {
            assert(!s_has_key(self.entries@, key@));
        }
        self.entries.push((key, value));
        proof {
            assert(self.entries@ =~= s_insert(old(self).entries_seq(), key, value));
        }
    }

    /// The entries as a plain vector, for rendering by the host side.
    pub fn items(&self) -> (r: &Vec<(String, ArgValue)>)
        ensures
            r@ == self.entries_seq(),
    {
        &self.entries
    }

    /// A copy holding equal entries.
    pub fn duplicate(&self) -> (r: Arguments)
        ensures
            r.entries_seq() == self.entries_seq(),
            r.wf() == self.wf(),
    {
        let mut out: Vec<(String, ArgValue)> = Vec::new();
        let mut i: usize = 0;
        while i < self.entries.len()
            invariant
                i <= self.entries@.len(),
                out@.len() == i,
                forall|t: int| 0 <= t < i ==> out@[t] == self.entries@[t],
            decreases self.entries@.len() - i,
        {
            let k = self.entries[i].0.clone();
            let v = self.entries[i].1.duplicate();
            out.push((k, v));
            i = i + 1;
        }
        proof {
            assert(out@ =~= self.entries@);
        }
        Arguments { entries: out }
    }
}

} // verus!
