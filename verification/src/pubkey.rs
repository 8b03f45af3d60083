//! Identities: 32-byte public keys, compared byte for byte.

use vstd::prelude::*;
use vstd::std_specs::cmp::PartialEqSpecImpl;

verus! {

/// The identity of a party or of a stored record.
#[derive(Clone, Copy, Debug, Hash)]
pub struct Pubkey {
    pub bytes: [u8; 32],
}

impl Pubkey {
    /// The identity made of the given bytes.
    pub fn new_from_array(bytes: [u8; 32]) -> (key: Pubkey)
        ensures
            key.bytes == bytes,
    {
        Pubkey { bytes }
    }

    /// The bytes of this identity.
    pub fn to_bytes(&self) -> (bytes: [u8; 32])
        ensures
            bytes == self.bytes,
    {
        self.bytes
    }

    /// The empty identity: all bytes zero. It marks an unused slot.
    pub open spec fn empty() -> Pubkey {
        Pubkey { bytes: vstd::array::spec_array_fill_for_copy_type::<u8, 32>(0u8) }
    }

    /// Whether this is the empty identity.
    pub fn is_empty(&self) -> (r: bool)
        ensures
            r == (*self == Pubkey::empty()),
    {
        let zero = Pubkey::default();
        *self == zero
    }
}

impl Default for Pubkey {
    /// The empty identity.
    fn default() -> (key: Pubkey)
        ensures
            key == Pubkey::empty(),
            forall|i: int| 0 <= i < 32 ==> key.bytes[i] == 0,
    {
        let key = Pubkey { bytes: [0u8; 32] };
        assert(key.bytes =~= Pubkey::empty().bytes);
        key
    }
}

impl PartialEq for Pubkey {
    /// Two identities are equal when all their bytes are.
    fn eq(&self, other: &Pubkey) -> (r: bool) {
        let mut i: usize = 0;
        while i < 32
            invariant
                i <= 32,
                forall|j: int| 0 <= j < i ==> self.bytes[j] == other.bytes[j],
            decreases 32 - i,
        {
            if self.bytes[i] != other.bytes[i] {
                return false;
            }
            i += 1;
        }
        assert(self.bytes =~= other.bytes);
        true
    }
}

impl Eq for Pubkey {}

impl PartialEqSpecImpl for Pubkey {
    open spec fn obeys_eq_spec() -> bool {
        true
    }

    open spec fn eq_spec(&self, other: &Pubkey) -> bool {
        *self == *other
    }
}

} // verus!
