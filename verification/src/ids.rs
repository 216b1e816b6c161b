//! Opaque fixed-width values: account keys, content digests and the
//! challenge evidence blob.
//!
//! Identities and digests are 32-byte values and the challenge evidence is a
//! 64-byte value; each is modelled as a struct of 64-bit words so that
//! equality in contracts is plain field equality.

use vstd::prelude::*;

verus! {

/// A 32-byte opaque key naming a wallet, a record address or an authority.
#[derive(Clone, Copy, PartialEq, Eq, Structural, Debug, Hash)]
pub struct AccountId {
    pub w0: u64,
    pub w1: u64,
    pub w2: u64,
    pub w3: u64,
}

impl AccountId {
    /// Builds a key out of its four 64-bit words.
    pub fn new(w0: u64, w1: u64, w2: u64, w3: u64) -> (r: AccountId)
        ensures
            r == (AccountId { w0, w1, w2, w3 }),
    {
        AccountId { w0, w1, w2, w3 }
    }
}

/// A 32-byte digest: a listing's content hash, a name hash, or the result
/// hash an executor commits.
#[derive(Clone, Copy, PartialEq, Eq, Structural, Debug, Hash)]
pub struct Digest {
    pub w0: u64,
    pub w1: u64,
    pub w2: u64,
    pub w3: u64,
}

impl Digest {
    /// Builds a digest out of its four 64-bit words.
    pub fn new(w0: u64, w1: u64, w2: u64, w3: u64) -> (r: Digest)
        ensures
            r == (Digest { w0, w1, w2, w3 }),
    {
        Digest { w0, w1, w2, w3 }
    }
}

/// The 64-byte evidence blob a challenger submits. It is accepted but not
/// validated: the field is reserved for future cryptographic verification.
#[derive(Clone, Copy, PartialEq, Eq, Structural, Debug)]
pub struct Evidence {
    pub w0: u64,
    pub w1: u64,
    pub w2: u64,
    pub w3: u64,
    pub w4: u64,
    pub w5: u64,
    pub w6: u64,
    pub w7: u64,
}

} // verus!
