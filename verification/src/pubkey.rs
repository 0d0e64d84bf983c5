//! Principal identifiers of the ledger.

use vstd::prelude::*;

verus! {

/// A 32-byte principal identifier: an account address or a signer's key.
#[derive(Clone, Copy, Debug, PartialEq, Eq, Hash)]
pub struct Pubkey {
    pub bytes: [u8; 32],
}

impl Pubkey {
    /// Wraps 32 bytes as an identifier.
    pub fn new_from_array(bytes: [u8; 32]) -> (key: Pubkey)
        ensures
            key.bytes == bytes,
    {
        Pubkey { bytes }
    }

    /// The identifier's 32 bytes.
    pub fn to_bytes(&self) -> (bytes: [u8; 32])
        ensures
            bytes == self.bytes,
    {
        self.bytes
    }

    /// Whether two identifiers hold the same bytes.
    pub fn same(&self, other: &Pubkey) -> (same: bool)
        ensures
            same == (*self == *other),
    {
        let same = crate::bytes::same_bytes(self.bytes.as_slice(), other.bytes.as_slice());
        proof {
            if same {
                assert(self.bytes =~= other.bytes);
            }
        }
        same
    }
}

} // verus!
