//! Identities of the participants and of the accounts on the ledger.

use solana_program::pubkey::{Pubkey, PubkeyError};
use vstd::prelude::*;
use vstd::utf8::encode_utf8;
use crate::error::AddressError;

verus! {

/// A fixed-size handle that names a player, a program or an account.
#[derive(Clone, Copy, Debug, PartialEq, Eq, Hash)]
pub struct Identity {
    pub bytes: [u8; 32],
}

impl View for Identity {
    type V = Seq<u8>;

    open spec fn view(&self) -> Seq<u8> {
        self.bytes@
    }
}

/// The text in which the ledger writes an identity: its bytes in base 58.
pub uninterp spec fn base58_text(bytes: Seq<u8>) -> Seq<char>;

/// The address that the ledger derives from a base, a seed and an owner: a
/// hash of the three.
pub uninterp spec fn seeded_address(base: Seq<u8>, seed: Seq<char>, owner: Seq<u8>) -> Seq<u8>;

/// The 21 bytes that end an owner which the ledger reserves for addresses
/// derived by programs: the text `ProgramDerivedAddress`.
pub open spec fn reserved_ending() -> Seq<u8> {
    seq![
        80u8, 114u8, 111u8, 103u8, 114u8, 97u8, 109u8, 68u8, 101u8, 114u8, 105u8, 118u8, 101u8,
        100u8, 65u8, 100u8, 100u8, 114u8, 101u8, 115u8, 115u8,
    ]
}

/// Whether the owner ends in the reserved bytes.
pub open spec fn owner_is_reserved(owner: Seq<u8>) -> bool {
    owner.len() >= 21 && owner.subrange(owner.len() - 21, owner.len() as int) == reserved_ending()
}

/// What deriving an address comes to. A seed of more than 32 bytes is
/// refused first, then a reserved owner.
pub open spec fn address_with_seed(base: Seq<u8>, seed: Seq<char>, owner: Seq<u8>) -> Result<
    Seq<u8>,
    AddressError,
> {
    if encode_utf8(seed).len() > 32 {
        Err(AddressError::MaxSeedLengthExceeded)
    } else if owner_is_reserved(owner) {
        Err(AddressError::IllegalOwner)
    } else {
        Ok(seeded_address(base, seed, owner))
    }
}

/// `Pubkey::to_string`: the base 58 text of the 32 bytes.
#[verifier::external_body]
fn pubkey_to_string(id: &Identity) -> (text: String)
    ensures
        text@ == base58_text(id@),
{
    Pubkey::new_from_array(id.bytes).to_string()
}

/// `Pubkey::create_with_seed`: it refuses a seed of more than 32 bytes, then
/// an owner that ends in the reserved bytes, and else gives the hash of base,
/// seed and owner.
#[verifier::external_body]
fn pubkey_create_with_seed(base: &Identity, seed: &str, owner: &Identity) -> (result: Result<
    Identity,
    AddressError,
>)
    ensures
        match result {
            Ok(address) => address_with_seed(base@, seed@, owner@) is Ok && address@
                == seeded_address(base@, seed@, owner@),
            Err(error) => address_with_seed(base@, seed@, owner@) == Err::<Seq<u8>, AddressError>(
                error,
            ),
        },
{
    let base = Pubkey::new_from_array(base.bytes);
    let owner = Pubkey::new_from_array(owner.bytes);
    match Pubkey::create_with_seed(&base, seed, &owner) {
        Ok(address) => Ok(Identity { bytes: address.to_bytes() }),
        Err(PubkeyError::MaxSeedLengthExceeded) => Err(AddressError::MaxSeedLengthExceeded),
        Err(PubkeyError::InvalidSeeds) => Err(AddressError::InvalidSeeds),
        Err(PubkeyError::IllegalOwner) => Err(AddressError::IllegalOwner),
    }
}

impl Identity {
    /// The identity made of the given bytes.
    pub fn new(bytes: [u8; 32]) -> (id: Identity)
        ensures
            id.bytes == bytes,
    {
        Identity { bytes }
    }

    /// The bytes of the identity.
    pub fn to_bytes(&self) -> (bytes: [u8; 32])
        ensures
            bytes == self.bytes,
    {
        self.bytes
    }

    /// The identity as the ledger writes it.
    pub fn to_text(&self) -> (text: String)
        ensures
            text@ == base58_text(self@),
    {
        pubkey_to_string(self)
    }

    /// The address derived from a base, a seed and the program that will own
    /// the account.
    pub fn create_with_seed(base: &Identity, seed: &str, owner: &Identity) -> (result: Result<
        Identity,
        AddressError,
    >)
        ensures
            match result {
                Ok(address) => address_with_seed(base@, seed@, owner@) == Ok::<
                    Seq<u8>,
                    AddressError,
                >(address@),
                Err(error) => address_with_seed(base@, seed@, owner@) == Err::<
                    Seq<u8>,
                    AddressError,
                >(error),
            },
    {
        pubkey_create_with_seed(base, seed, owner)
    }

    /// Two identities with the same bytes are one identity.
    pub proof fn lemma_view_decides(self, other: Identity)
        requires
            self@ == other@,
        ensures
            self == other,
    {
        assert(self.bytes =~= other.bytes);
    }

    /// Whether two identities hold the same bytes.
    pub fn same_as(&self, other: &Identity) -> (same: bool)
        ensures
            same == (self@ == other@),
            same == (*self == *other),
    {
        let mut i: usize = 0;
        while i < 32
            invariant
                i <= 32,
                forall|k: int| 0 <= k < i ==> self.bytes[k] == other.bytes[k],
            decreases 32 - i,
        {
            if self.bytes[i] != other.bytes[i] {
                return false;
            }
            i += 1;
        }
        assert(self.bytes =~= other.bytes);
        true
    }
}

} // verus!
