//! Identities of principals, as the 32 bytes of a public key.
use vstd::prelude::*;

verus! {

/// The public key of a principal: a caller, a record's owner, or the key
/// from which a record's slot is derived.
#[derive(Clone, Copy, Debug)]
pub struct Identity {
    pub key: [u8; 32],
}

impl View for Identity {
    type V = Seq<u8>;

    open spec fn view(&self) -> Seq<u8> {
        self.key@
    }
}

impl Identity {
    pub fn new(key: [u8; 32]) -> (r: Identity)
        ensures
            r@ == key@,
    {
        Identity { key }
    }

    /// Whether two identities are the same key.
    pub fn same_as(&self, other: &Identity) -> (r: bool)
        ensures
            r == (self@ == other@),
    {
        let mut i: usize = 0;
        while i < 32
            invariant
                0 <= i <= 32,
                self@.len() == 32,
                other@.len() == 32,
                forall|j: int| 0 <= j < i ==> self@[j] == other@[j],
            decreases 32 - i,
        {
            if self.key[i] != other.key[i] {
                return false;
            }
            i = i + 1;
        }
        assert(self@ =~= other@);
        true
    }
}

/// The text form of a public key: its base58 encoding.
pub uninterp spec fn base58_of(key: Seq<u8>) -> Seq<char>;

/// Relies on `Display` of anchor_lang's `Pubkey`, which writes the key's
/// bytes in base58 (`bs58::encode(..).into_string()`).
#[verifier::external_body]
pub(crate) fn key_text(id: &Identity) -> (r: String)
    ensures
        r@ == base58_of(id@),
{
    anchor_lang::prelude::Pubkey::new_from_array(id.key).to_string()
}

} // verus!
