use vstd::prelude::*;

verus! {

/// A 32-byte ledger identity (an account or mint address), stored as four
/// 64-bit words. Identities are opaque to the library: it only ever compares
/// them for equality.
#[derive(Clone, Copy, PartialEq, Eq, Structural, Debug, Hash)]
pub struct Pubkey {
    pub w0: u64,
    pub w1: u64,
    pub w2: u64,
    pub w3: u64,
}

impl Pubkey {
    pub fn new(w0: u64, w1: u64, w2: u64, w3: u64) -> (r: Pubkey)
        ensures
            r == (Pubkey { w0, w1, w2, w3 }),
    {
        Pubkey { w0, w1, w2, w3 }
    }
}

} // verus!
