use vstd::prelude::*;

verus! {

/// The identity of an account or a signer. The 32 bytes of an address are held as four
/// little-endian 64-bit words; keys are only ever compared for equality.
#[derive(Clone, Copy, Debug, PartialEq, Eq, Structural)]
pub struct Pubkey {
    pub w0: u64,
    pub w1: u64,
    pub w2: u64,
    pub w3: u64,
}

impl Pubkey {
    pub open spec fn is_zero(self) -> bool {
        self.w0 == 0 && self.w1 == 0 && self.w2 == 0 && self.w3 == 0
    }

    /// The all-zero key, which stands for an identity that has not been set.
    pub fn zero() -> (r: Pubkey)
        ensures
            r.is_zero(),
    {
        Pubkey { w0: 0, w1: 0, w2: 0, w3: 0 }
    }

    pub fn new(w0: u64, w1: u64, w2: u64, w3: u64) -> (r: Pubkey)
        ensures
            r.w0 == w0 && r.w1 == w1 && r.w2 == w2 && r.w3 == w3,
    {
        Pubkey { w0, w1, w2, w3 }
    }
}


} // verus!
