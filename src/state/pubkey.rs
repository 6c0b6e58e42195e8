use vstd::prelude::*;

verus! {

/// A 32-byte identity, held as its high and low halves.
#[derive(Debug, Clone, Copy, PartialEq, Eq, Structural)]
pub struct Pubkey {
    pub hi: u128,
    pub lo: u128,
}

impl Pubkey {
    pub fn new(hi: u128, lo: u128) -> (r: Pubkey)
        ensures
            r.hi == hi,
            r.lo == lo,
    {
        Pubkey { hi, lo }
    }
}

} // verus!
