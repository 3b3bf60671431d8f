//! Fixed-size key material carried by transactions and stored records.
use vstd::prelude::*;

verus! {

broadcast use vstd::array::group_array_axioms;

/// An Ed25519 public key: 32 raw bytes.
#[derive(Clone, Copy, Debug)]
pub struct PublicKey {
    pub bytes: [u8; 32],
}

/// An Ed25519 signature: 64 raw bytes.
#[derive(Clone, Copy, Debug)]
pub struct Signature {
    pub bytes: [u8; 64],
}

impl PublicKey {
    pub fn new(bytes: [u8; 32]) -> (r: PublicKey)
        ensures
            r.bytes == bytes,
    {
        PublicKey { bytes }
    }

    /// Byte-wise comparison of two keys.
    pub fn same(&self, other: &PublicKey) -> (r: bool)
        ensures
            r == (*self == *other),
    {
        let mut i: usize = 0;
        while i < 32
            invariant
                i <= 32,
                forall|j: int| 0 <= j < i ==> self.bytes[j] == other.bytes[j],
            decreases 32 - i,
        {
            if self.bytes[i] != other.bytes[i] {
                return false;
            }
            i = i + 1;
        }
        assert(self.bytes =~= other.bytes);
        true
    }
}

impl Signature {
    pub fn new(bytes: [u8; 64]) -> (r: Signature)
        ensures
            r.bytes == bytes,
    {
        Signature { bytes }
    }
}

} // verus!
