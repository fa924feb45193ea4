//! A 32-byte content hash value.

use vstd::prelude::*;

verus! {

/// A 256-bit content hash, the identifier every report entry is built from.
#[derive(Clone, Copy, Debug, PartialEq, Eq)]
pub struct Hash256 {
    pub bytes: [u8; 32],
}

impl View for Hash256 {
    type V = Seq<u8>;

    open spec fn view(&self) -> Seq<u8> {
        self.bytes@
    }
}

impl Hash256 {
    /// Wraps raw digest bytes as a hash value.
    pub fn new(bytes: [u8; 32]) -> (r: Hash256)
        ensures
            r@ == bytes@,
    {
        Hash256 { bytes }
    }

    /// Byte-wise equality of two hash values.
    pub fn eq_hash(&self, other: &Hash256) -> (r: bool)
        ensures
            r <==> self@ == other@,
    {
        let mut i: usize = 0;
        while i < 32
            invariant
                i <= 32,
                forall|j: int| 0 <= j < i ==> self@[j] == other@[j],
            decreases 32 - i,
        {
            if self.bytes[i] != other.bytes[i] {
                assert(self@[i as int] != other@[i as int]);
                return false;
            }
            i += 1;
        }
        assert(self@ =~= other@);
        true
    }
}

} // verus!
