//! Identities of donors and entities.

use vstd::prelude::*;

verus! {

/// A 32-byte account address. The address of all zeros names nobody.
#[derive(Clone, Copy, Debug, PartialEq, Eq)]
pub struct Address {
    bytes: [u8; 32],
}

impl View for Address {
    type V = Seq<u8>;

    closed spec fn view(&self) -> Seq<u8> {
        self.bytes@
    }
}

impl Address {
    /// The address of the given bytes.
    pub fn new(bytes: [u8; 32]) -> (address: Self)
        ensures
            address@ == bytes@,
    {
        Address { bytes }
    }

    /// The bytes of the address.
    pub fn to_bytes(&self) -> (bytes: [u8; 32])
        ensures
            bytes@ == self@,
    {
        self.bytes
    }

    /// Every address has 32 bytes.
    pub proof fn lemma_length(&self)
        ensures
            self@.len() == 32,
    {
    }

    /// Whether this is the address of all zeros.
    pub fn is_zero(&self) -> (answer: bool)
        ensures
            answer == (forall|k: int| 0 <= k < 32 ==> self@[k] == 0),
    {
        let mut i: usize = 0;
        while i < 32
            invariant
                i <= 32,
                forall|k: int| 0 <= k < i ==> self.bytes@[k] == 0,
            decreases 32 - i,
        {
            if self.bytes[i] != 0 {
                assert(self@[i as int] != 0);
                return false;
            }
            i += 1;
        }
        true
    }

    /// Whether two addresses are the same.
    pub fn same(&self, other: &Address) -> (answer: bool)
        ensures
            answer == (self@ == other@),
    {
        let mut i: usize = 0;
        while i < 32
            invariant
                i <= 32,
                forall|k: int| 0 <= k < i ==> self.bytes@[k] == other.bytes@[k],
            decreases 32 - i,
        {
            if self.bytes[i] != other.bytes[i] {
                return false;
            }
            i += 1;
        }
        assert(self.bytes@ =~= other.bytes@);
        true
    }
}

} // verus!
