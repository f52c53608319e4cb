//! Account addresses.

use vstd::prelude::*;
use vstd::std_specs::cmp::PartialEqSpecImpl;

verus! {

/// A 32-byte account address: a mint, a holding account, a wallet, a pair record.
#[derive(Clone, Copy, Debug, Eq)]
pub struct Key {
    pub bytes: [u8; 32],
}

impl View for Key {
    type V = Seq<u8>;

    open spec fn view(&self) -> Seq<u8> {
        self.bytes@
    }
}

impl PartialEq for Key {
    fn eq(&self, other: &Key) -> (r: bool) {
        let mut i: usize = 0;
        while i < 32
            invariant
                i <= 32,
                forall|j: int| 0 <= j < i ==> self.bytes[j] == other.bytes[j],
            decreases 32 - i,
        {
            if self.bytes[i] != other.bytes[i] {
                return false;
            }
            i += 1;
        }
        assert(self.bytes =~= other.bytes);
        true
    }
}

impl PartialEqSpecImpl for Key {
    open spec fn obeys_eq_spec() -> bool {
        true
    }

    open spec fn eq_spec(&self, other: &Key) -> bool {
        *self == *other
    }
}

impl Key {
    /// The key made of the given bytes.
    pub fn new(bytes: [u8; 32]) -> (key: Key)
        ensures
            key.bytes == bytes,
    {
        Key { bytes }
    }

    /// The key whose bytes are the given sequence; arbitrary unless the sequence
    /// has 32 entries.
    pub open spec fn of_bytes(bytes: Seq<u8>) -> Key {
        choose|key: Key| key@ == bytes
    }

    /// Two keys with the same bytes are the same key.
    pub proof fn lemma_same_bytes(a: Key, b: Key)
        requires
            a@ == b@,
        ensures
            a == b,
    {
        assert(a.bytes =~= b.bytes);
    }

    /// `of_bytes` inverts the view.
    pub proof fn lemma_of_bytes(key: Key)
        ensures
            Key::of_bytes(key@) == key,
    {
        Key::lemma_same_bytes(Key::of_bytes(key@), key);
    }
}

} // verus!
