//! Account identities.

use vstd::prelude::*;

verus! {

/// The address of an account: 32 bytes, compared byte by byte.
#[derive(Clone, Copy, Debug, PartialEq, Eq)]
pub struct Identity {
    /// The address itself.
    pub bytes: [u8; 32],
}

impl View for Identity {
    type V = Seq<u8>;

    open spec fn view(&self) -> Seq<u8> {
        self.bytes@
    }
}

/// The payer's authorization of a call: an account of which the host has
/// verified that it signed the call.
///
/// The library verifies no signature. It takes this credential where it
/// needs the payer's consent, so that no tip can be started without one, and
/// leaves it to the host to issue it for accounts that signed, and for no
/// others.
#[derive(Clone, Copy, Debug, PartialEq, Eq)]
pub struct Signer {
    key: Identity,
}

impl View for Signer {
    type V = Identity;

    closed spec fn view(&self) -> Identity {
        self.key
    }
}

impl Signer {
    /// The credential of `key`. It is for the host to call, once it has
    /// verified that `key` signed the call.
    pub fn new(key: Identity) -> (signer: Signer)
        ensures
            signer@ == key,
    {
        Signer { key }
    }

    /// The account that signed.
    pub fn key(&self) -> (key: Identity)
        ensures
            key == self@,
    {
        self.key
    }
}

/// The 32 bytes that `text` spells as a base58 address, where it spells any.
pub uninterp spec fn address_of_text(text: Seq<char>) -> Option<Seq<u8>>;

/// Decodes a base58 address with `Pubkey::try_from(&str)` of `anchor_lang`.
///
/// Nothing is proved here. The contract only gives the outcome its name,
/// `address_of_text`: the decoder reads nothing but the text, so equal texts
/// decode alike. It refuses a text of more than 44 bytes, one with a
/// character outside the base58 alphabet, and one that does not spell
/// exactly 32 bytes; it never panics.
#[verifier::external_body]
fn decode_address(text: &str) -> (r: Option<[u8; 32]>)
    ensures
        match r {
            Some(bytes) => address_of_text(text@) == Some(bytes@),
            None => address_of_text(text@) is None,
        },
{
    match anchor_lang::prelude::Pubkey::try_from(text) {
        Ok(key) => Some(key.to_bytes()),
        Err(_) => None,
    }
}

impl Identity {
    /// The identity with these bytes.
    pub fn new(bytes: [u8; 32]) -> (id: Identity)
        ensures
            id.bytes == bytes,
            id@ == bytes@,
    {
        Identity { bytes }
    }

    /// The bytes of this identity.
    pub fn to_bytes(&self) -> (bytes: [u8; 32])
        ensures
            bytes == self.bytes,
    {
        self.bytes
    }

    /// Whether the two identities are the same account.
    pub fn same_as(&self, other: &Identity) -> (r: bool)
        ensures
            r == (self@ == other@),
            r == (*self == *other),
    {
        let mut i: usize = 0;
        while i < 32
            invariant
                i <= 32,
                forall|j: int| 0 <= j < i ==> self.bytes@[j] == other.bytes@[j],
            decreases 32 - i,
        {
            if self.bytes[i] != other.bytes[i] {
                return false;
            }
            i += 1;
        }
        assert(self.bytes =~= other.bytes);
        true
    }

    /// The identity that `text` spells in base58, as addresses are written
    /// down in configuration; `None` where the text is malformed.
    pub fn from_text(text: &str) -> (r: Option<Identity>)
        ensures
            match r {
                Some(id) => address_of_text(text@) == Some(id@),
                None => address_of_text(text@) is None,
            },
    {
        match decode_address(text) {
            Some(bytes) => Some(Identity::new(bytes)),
            None => None,
        }
    }
}

} // verus!
