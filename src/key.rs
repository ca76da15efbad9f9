//! Account identities.
use vstd::prelude::*;

verus! {

/// Number of bytes in an account identity.
pub const KEY_LEN: usize = 32;

/// A 32-byte account identity.
#[derive(Clone, Copy, Debug)]
pub struct Pubkey {
    pub bytes: [u8; 32],
}

impl View for Pubkey {
    type V = Seq<u8>;

    open spec fn view(&self) -> Seq<u8> {
        self.bytes@
    }
}

impl Pubkey {
    /// The identity with the given bytes.
    pub fn new_from_array(bytes: [u8; 32]) -> (r: Pubkey)
        ensures
            r@ == bytes@,
    {
        Pubkey { bytes }
    }

    /// The bytes of this identity.
    pub fn to_bytes(&self) -> (r: [u8; 32])
        ensures
            r@ == self@,
    {
        self.bytes
    }
}

impl PartialEq for Pubkey {
    fn eq(&self, o: &Pubkey) -> (r: bool) {
        let mut i: usize = 0;
        while i < KEY_LEN
            invariant
                0 <= i <= KEY_LEN,
                self.bytes@.len() == KEY_LEN,
                o.bytes@.len() == KEY_LEN,
                forall|j: int| 0 <= j < i ==> self.bytes@[j] == o.bytes@[j],
            decreases KEY_LEN - i,
        {
            if self.bytes[i] != o.bytes[i] {
                return false;
            }
            i = i + 1;
        }
        assert(self@ =~= o@);
        true
    }
}

impl vstd::std_specs::cmp::PartialEqSpecImpl for Pubkey {
    open spec fn obeys_eq_spec() -> bool {
        true
    }

    open spec fn eq_spec(&self, o: &Pubkey) -> bool {
        self@ == o@
    }
}

impl Eq for Pubkey {
}

} // verus!
