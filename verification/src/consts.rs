use vstd::prelude::*;

verus! {

/// One tenth of a whole token, in base units.
pub const ALMOST_ZERO: u128 = 100000000000000000000000;

pub const ALICE: &'static str = "alice";

pub const BOB: &'static str = "bob";

pub const CHARLIE: &'static str = "charlie";

pub const DAVE: &'static str = "dave";

pub const EDWARD: &'static str = "edward";

pub const FRED: &'static str = "fred";

/// The well-known participant names, in their fixed order.
pub fn accounts() -> (r: Vec<&'static str>)
    ensures
        r@.len() == 6,
        r@[0]@ == ALICE@ && r@[1]@ == BOB@ && r@[2]@ == CHARLIE@,
        r@[3]@ == DAVE@ && r@[4]@ == EDWARD@ && r@[5]@ == FRED@,
{
    let mut v: Vec<&'static str> = Vec::new();
    v.push(ALICE);
    v.push(BOB);
    v.push(CHARLIE);
    v.push(DAVE);
    v.push(EDWARD);
    v.push(FRED);
    v
}

} // verus!
