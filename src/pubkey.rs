use vstd::prelude::*;

verus! {

/// The 32-byte public key of an account.
#[derive(Clone, Copy, Debug)]
pub struct Pubkey {
    pub bytes: [u8; 32],
}

impl Pubkey {
    pub fn new_from_array(bytes: [u8; 32]) -> (r: Pubkey)
        ensures
            r.bytes == bytes,
    {
        Pubkey { bytes }
    }

    /// Whether two keys are the same, byte for byte.
    pub fn equals(&self, other: &Pubkey) -> (r: bool)
        ensures
            r == (*self == *other),
    {
        let mut i: usize = 0;
        while i < 32
            invariant
                i <= 32,
                forall|j: int| 0 <= j < i ==> self.bytes@[j] == other.bytes@[j],
            decreases 32 - i,
        {
            if self.bytes[i] != other.bytes[i] {
                return false;
            }
            i = i + 1;
        }
        proof {
            broadcast use vstd::array::group_array_axioms;

            assert(self.bytes =~= other.bytes);
        }
        true
    }
}

/// What the base-58 text of a key is, character by character.
pub uninterp spec fn base58_of(bytes: Seq<u8>) -> Seq<char>;

/// Relies on the `Display` of solana_program's `Pubkey`: the key's bytes in
/// base 58, which depends on the bytes alone.
#[verifier::external_body]
pub(crate) fn to_base58(key: &Pubkey) -> (r: String)
    ensures
        r@ == base58_of(key.bytes@),
{
    solana_program::pubkey::Pubkey::new_from_array(key.bytes).to_string()
}

} // verus!
