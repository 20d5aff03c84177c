use vstd::prelude::*;
use vstd::string::*;

verus! {

/// The pattern `p` occurs in `h` starting at character position `i`.
pub open spec fn match_at(h: Seq<char>, p: Seq<char>, i: int) -> bool {
    &&& 0 <= i
    &&& i + p.len() <= h.len()
    &&& h.subrange(i, i + p.len() as int) == p
}

/// The first character position at which `pat` occurs in `hay`, if any.
pub fn find_sub(hay: &str, pat: &str) -> (r: Option<usize>)
    ensures
        match r {
            Some(i) => match_at(hay@, pat@, i as int) && forall|j: int|
                0 <= j < i ==> !match_at(hay@, pat@, j),
            None => forall|j: int| !match_at(hay@, pat@, j),
        },
{
    let n = hay.unicode_len();
    let m = pat.unicode_len();
    if m == 0 {
        proof {
            assert(hay@.subrange(0, 0) =~= pat@);
        }
        return Some(0);
    }
    if m > n {
        return None;
    }
    let mut i: usize = 0;
    while i <= n - m
        invariant
            n == hay@.len(),
            m == pat@.len(),
            0 < m <= n,
            i <= n - m + 1,
            forall|j: int| 0 <= j < i ==> !match_at(hay@, pat@, j),
        decreases n - m - i + 1,
    {
        let mut k: usize = 0;
        let mut matched = true;
        while k < m
            invariant
                n == hay@.len(),
                m == pat@.len(),
                0 < m <= n,
                i <= n - m,
                k <= m,
                matched <==> (forall|t: int| 0 <= t < k ==> hay@[i + t] == pat@[t]),
            decreases m - k,
        {
            if hay.get_char(i + k) != pat.get_char(k) {
                matched = false;
                k = m;
            } else {
                k = k + 1;
            }
        }
        if matched {
            proof {
                assert(hay@.subrange(i as int, i + pat@.len() as int) =~= pat@);
            }
            return Some(i);
        }
        proof {
            assert(!match_at(hay@, pat@, i as int)) by {
                if match_at(hay@, pat@, i as int) {
                    assert(forall|t: int|
                        0 <= t < m ==> hay@.subrange(i as int, i + pat@.len() as int)[t] == pat@[t]);
                    assert(forall|t: int| 0 <= t < m ==> hay@[i + t] == pat@[t]);
                }
            }
        }
        i = i + 1;
    }
    proof {
        assert(forall|j: int| j > n - m ==> !match_at(hay@, pat@, j));
    }
    None
}

/// Whether `pat` occurs anywhere in `hay`.
pub fn contains_sub(hay: &str, pat: &str) -> (r: bool)
    ensures
        r == exists|i: int| match_at(hay@, pat@, i),
{
    match find_sub(hay, pat) {
        Some(i) => {
            proof {
                assert(match_at(hay@, pat@, i as int));
            }
            true
        },
        None => false,
    }
}

} // verus!
