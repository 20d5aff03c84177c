use vstd::prelude::*;

verus! {

/// Number of base (yocto) units in one whole token.
pub const YOCTO_PER_NEAR: u128 = 1000000000000000000000000;

/// Number of base gas units in one teragas unit.
pub const GAS_PER_TGAS: u64 = 1000000000000;

/// A balance expressed in whole tokens.
#[derive(PartialEq, Eq, Clone, Copy, Hash, PartialOrd, Ord, Debug, Structural)]
pub struct Near(pub u128);

/// A compute budget expressed in teragas.
#[derive(PartialEq, Eq, Clone, Copy, Hash, PartialOrd, Ord, Debug, Structural)]
pub struct Tgas(pub u64);

/// A value that can be scaled down to base balance units.
pub trait Nearable {
    /// True when scaling cannot overflow a `u128`.
    spec fn parse_req(&self) -> bool;

    /// The balance in base units that `parse` returns.
    spec fn parsed(&self) -> u128;

    fn parse(&self) -> (r: u128)
        requires
            self.parse_req(),
        ensures
            r == self.parsed(),
    ;
}

/// A value that can be scaled down to base gas units.
pub trait Gasable {
    /// True when scaling cannot overflow a `u64`.
    spec fn parse_req(&self) -> bool;

    /// The gas amount in base units that `parse` returns.
    spec fn parsed(&self) -> u64;

    fn parse(&self) -> (r: u64)
        requires
            self.parse_req(),
        ensures
            r == self.parsed(),
    ;
}

impl Nearable for Near {
    open spec fn parse_req(&self) -> bool {
        self.0 * YOCTO_PER_NEAR <= u128::MAX
    }

    open spec fn parsed(&self) -> u128 {
        (self.0 * YOCTO_PER_NEAR) as u128
    }

    fn parse(&self) -> (r: u128) {
        self.0 * YOCTO_PER_NEAR
    }
}

impl Nearable for u128 {
    open spec fn parse_req(&self) -> bool {
        true
    }

    open spec fn parsed(&self) -> u128 {
        *self
    }

    fn parse(&self) -> (r: u128) {
        *self
    }
}

impl Gasable for Tgas {
    open spec fn parse_req(&self) -> bool {
        self.0 * GAS_PER_TGAS <= u64::MAX
    }

    open spec fn parsed(&self) -> u64 {
        (self.0 * GAS_PER_TGAS) as u64
    }

    fn parse(&self) -> (r: u64) {
        self.0 * GAS_PER_TGAS
    }
}

impl Gasable for u64 {
    open spec fn parse_req(&self) -> bool {
        true
    }

    open spec fn parsed(&self) -> u64 {
        *self
    }

    fn parse(&self) -> (r: u64) {
        *self
    }
}

impl Near {
    /// Difference of two whole-token balances; the result is in whole tokens.
    pub fn minus(self, other: Near) -> (r: Near)
        requires
            other.0 <= self.0,
        ensures
            r.0 == self.0 - other.0,
    {
        Near(self.0 - other.0)
    }

    /// Difference between this balance and a base-unit amount, in base units.
    pub fn minus_yocto(self, other: u128) -> (r: u128)
        requires
            self.parse_req(),
            other <= self.parsed(),
        ensures
            r == self.parsed() - other,
    {
        self.parse() - other
    }
}

} // verus!
