//! Ledger addresses: 32-byte public keys compared only for equality.

use vstd::prelude::*;

verus! {

/// A ledger address: the 32 raw bytes of a public key.
///
/// Every authorization decision in this crate reduces to equality of such
/// addresses; no key is ever trusted for its contents, only for which
/// account it names.
#[derive(Clone, Copy, Debug, PartialEq, Eq)]
pub struct Key {
    pub bytes: [u8; 32],
}

impl View for Key {
    type V = Seq<u8>;

    open spec fn view(&self) -> Seq<u8> {
        self.bytes@
    }
}

impl DeepView for Key {
    type V = Seq<u8>;

    open spec fn deep_view(&self) -> Seq<u8> {
        self.bytes@
    }
}

/// The all-zero address, used as the "none" marker for a pending authority.
pub open spec fn zero_key() -> Seq<u8> {
    Seq::new(32, |i: int| 0u8)
}

/// The all-zero address as a key value.
pub open spec fn zero_key_val() -> Key {
    Key {
        bytes: [
            0u8, 0u8, 0u8, 0u8, 0u8, 0u8, 0u8, 0u8, 0u8, 0u8, 0u8, 0u8, 0u8, 0u8, 0u8, 0u8, 0u8,
            0u8, 0u8, 0u8, 0u8, 0u8, 0u8, 0u8, 0u8, 0u8, 0u8, 0u8, 0u8, 0u8, 0u8, 0u8,
        ],
    }
}

/// The value and its view agree: the zero key's bytes are all zero.
pub proof fn lemma_zero_key_val_view()
    ensures
        zero_key_val()@ == zero_key(),
{
    assert(zero_key_val()@ =~= zero_key());
}

impl Key {
    /// Two keys name the same account exactly when all their bytes agree.
    pub open spec fn spec_eq(self, other: Key) -> bool {
        self@ == other@
    }

    /// Byte-for-byte equality of two addresses.
    pub fn key_eq(&self, other: &Key) -> (r: bool)
        ensures
            r == self.spec_eq(*other),
    {
        let mut i: usize = 0;
        while i < 32
            invariant
                0 <= i <= 32,
                forall|j: int| 0 <= j < i ==> self.bytes@[j] == other.bytes@[j],
            decreases 32 - i,
        {
            if self.bytes[i] != other.bytes[i] {
                assert(self@ != other@);
                return false;
            }
            i += 1;
        }
        proof {
            assert(self@ =~= other@);
        }
        true
    }

    /// Whether this is the all-zero address.
    pub fn is_zero(&self) -> (r: bool)
        ensures
            r == (self@ == zero_key()),
    {
        let mut i: usize = 0;
        while i < 32
            invariant
                0 <= i <= 32,
                forall|j: int| 0 <= j < i ==> self.bytes@[j] == 0u8,
            decreases 32 - i,
        {
            if self.bytes[i] != 0 {
                assert(self@[i as int] != zero_key()[i as int]);
                return false;
            }
            i += 1;
        }
        proof {
            assert(self@ =~= zero_key());
        }
        true
    }

    /// The all-zero address as a value.
    pub fn zero() -> (k: Key)
        ensures
            k == zero_key_val(),
            k@ == zero_key(),
    {
        let k = Key { bytes: [0u8; 32] };
        proof {
            assert(k.bytes =~= zero_key_val().bytes);
            assert(k@ =~= zero_key());
        }
        k
    }

    /// The bytes of this address as a growable vector, for seed building.
    pub fn to_vec(&self) -> (v: Vec<u8>)
        ensures
            v@ == self@,
    {
        let mut v: Vec<u8> = Vec::new();
        let mut i: usize = 0;
        while i < 32
            invariant
                0 <= i <= 32,
                v@.len() == i,
                forall|j: int| 0 <= j < i ==> v@[j] == self.bytes@[j],
            decreases 32 - i,
        {
            v.push(self.bytes[i]);
            i += 1;
        }
        proof {
            assert(v@ =~= self@);
        }
        v
    }
}

} // verus!
