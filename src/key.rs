//! Account identities.
use vstd::prelude::*;

verus! {

/// A 32-byte account identity (a public key), compared byte for byte.
#[derive(Clone, Copy, Debug)]
pub struct Key {
    pub bytes: [u8; 32],
}

impl View for Key {
    type V = Seq<u8>;

    open spec fn view(&self) -> Seq<u8> {
        self.bytes@
    }
}

/// The all-zero key, which marks an unset key slot (no second player, no winner).
pub open spec fn unset_key() -> Key {
    Key { bytes: vstd::array::spec_array_fill_for_copy_type(0u8) }
}

impl Key {
    pub fn new(bytes: [u8; 32]) -> (k: Key)
        ensures
            k.bytes == bytes,
    {
        Key { bytes }
    }

    /// The all-zero key.
    pub fn unset() -> (k: Key)
        ensures
            k == unset_key(),
    {
        let k = Key { bytes: [0u8; 32] };
        assert(k.bytes@ =~= unset_key().bytes@);
        k
    }

    pub fn is_unset(&self) -> (r: bool)
        ensures
            r == (*self == unset_key()),
    {
        let z = Key::unset();
        *self == z
    }
}

impl Default for Key {
    fn default() -> (k: Key)
        ensures
            k == unset_key(),
    {
        Key::unset()
    }
}

impl PartialEq for Key {
    fn eq(&self, o: &Key) -> (r: bool) {
        let mut i: usize = 0;
        while i < 32
            invariant
                i <= 32,
                forall|j: int| 0 <= j < i ==> self.bytes@[j] == o.bytes@[j],
            decreases 32 - i,
        {
            if self.bytes[i] != o.bytes[i] {
                assert(self.bytes@[i as int] != o.bytes@[i as int]);
                return false;
            }
            i = i + 1;
        }
        assert(self.bytes =~= o.bytes);
        true
    }
}

impl vstd::std_specs::cmp::PartialEqSpecImpl for Key {
    open spec fn obeys_eq_spec() -> bool {
        true
    }

    open spec fn eq_spec(&self, o: &Key) -> bool {
        self.bytes == o.bytes
    }
}

impl Eq for Key {
}

} // verus!
