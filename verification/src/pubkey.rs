//! Thirty-two byte account addresses.

use vstd::prelude::*;

verus! {

/// An account address: the 32 bytes of an ed25519 public key or of a
/// program derived address.
#[derive(Clone, Copy, PartialEq, Eq, Debug)]
pub struct Pubkey {
    pub bytes: [u8; 32],
}

/// Two addresses are the same exactly when their bytes are.
pub proof fn lemma_same_bytes(a: Pubkey, b: Pubkey)
    ensures
        (a.bytes@ == b.bytes@) == (a == b),
{
    if a.bytes@ == b.bytes@ {
        assert(a.bytes =~= b.bytes);
    }
}

impl Pubkey {
    /// The address whose bytes are `bytes`.
    pub fn new_from_array(bytes: [u8; 32]) -> (k: Pubkey)
        ensures
            k.bytes == bytes,
    {
        Pubkey { bytes }
    }

    /// The bytes of the address.
    pub fn to_bytes(&self) -> (b: [u8; 32])
        ensures
            b == self.bytes,
    {
        self.bytes
    }

    /// The 32 bytes of `data` that start at `offset`, read as an address.
    pub fn from_slice_at(data: &[u8], offset: usize) -> (k: Pubkey)
        requires
            offset + 32 <= data@.len(),
        ensures
            k.bytes@ == data@.subrange(offset as int, offset + 32),
    {
        let n = data.len();
        let mut a = [0u8; 32];
        for i in 0..32
            invariant
                n == data@.len(),
                offset + 32 <= n,
                forall|j: int| 0 <= j < i ==> a[j] == data@[offset + j],
        {
            a[i] = data[offset + i];
        }
        let k = Pubkey { bytes: a };
        assert(k.bytes@ =~= data@.subrange(offset as int, offset + 32));
        k
    }

    /// The bytes of the address as a vector.
    pub fn to_vec(&self) -> (v: Vec<u8>)
        ensures
            v@ == self.bytes@,
    {
        let mut v: Vec<u8> = Vec::new();
        for i in 0..32
            invariant
                v@.len() == i,
                forall|j: int| 0 <= j < i ==> v@[j] == self.bytes@[j],
        {
            v.push(self.bytes[i]);
        }
        assert(v@ =~= self.bytes@);
        v
    }

    /// Whether every byte of the address is zero.
    pub fn is_zero(&self) -> (r: bool)
        ensures
            r == (forall|i: int| 0 <= i < 32 ==> self.bytes[i] == 0),
    {
        let mut i: usize = 0;
        while i < 32
            invariant
                i <= 32,
                forall|j: int| 0 <= j < i ==> self.bytes[j] == 0,
            decreases 32 - i,
        {
            if self.bytes[i] != 0 {
                return false;
            }
            i = i + 1;
        }
        true
    }

    /// Whether the two addresses are the same.
    pub fn equals(&self, other: &Pubkey) -> (r: bool)
        ensures
            r == (*self == *other),
    {
        let mut i: usize = 0;
        while i < 32
            invariant
                i <= 32,
                forall|j: int| 0 <= j < i ==> self.bytes[j] == other.bytes[j],
            decreases 32 - i,
        {
            if self.bytes[i] != other.bytes[i] {
                return false;
            }
            i = i + 1;
        }
        assert(self.bytes =~= other.bytes);
        true
    }
}

} // verus!
