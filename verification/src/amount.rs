use vstd::prelude::*;

verus! {

/// An amount of a currency in its smallest units (wei, satoshi, cent ...).
#[derive(Debug, Clone, Copy, PartialEq, Eq, Structural, Hash)]
pub struct Amount(u128);

impl Amount {
    pub closed spec fn spec_raw(self) -> u128 {
        self.0
    }

    pub fn new(raw: u128) -> (r: Amount)
        ensures
            r.spec_raw() == raw,
    {
        Amount(raw)
    }

    pub fn raw(&self) -> (r: u128)
        ensures
            r == self.spec_raw(),
    {
        self.0
    }
}

impl Default for Amount {
    fn default() -> (r: Amount)
        ensures
            r.spec_raw() == 0,
    {
        Amount(0)
    }
}

} // verus!
