//! What a client asks of the ledger: an instruction for a program, with the
//! accounts that the program may read or change.

use solana_program::pubkey::Pubkey;
use vstd::prelude::*;
use crate::identity::Identity;

verus! {

/// An account that an instruction names, and what the program may do to it.
#[derive(Clone, Copy, Debug, PartialEq, Eq)]
pub struct AccountMeta {
    /// The address of the account.
    pub pubkey: Identity,
    /// Whether the account must sign the transaction.
    pub is_signer: bool,
    /// Whether the program may change the account.
    pub is_writable: bool,
}

impl AccountMeta {
    /// An account that the program may change.
    pub fn new(pubkey: Identity, is_signer: bool) -> (meta: AccountMeta)
        ensures
            meta == (AccountMeta { pubkey, is_signer, is_writable: true }),
    {
        AccountMeta { pubkey, is_signer, is_writable: true }
    }

    /// An account that the program may only read.
    pub fn new_readonly(pubkey: Identity, is_signer: bool) -> (meta: AccountMeta)
        ensures
            meta == (AccountMeta { pubkey, is_signer, is_writable: false }),
    {
        AccountMeta { pubkey, is_signer, is_writable: false }
    }
}

/// An instruction: the program that runs it, the accounts it names and the
/// bytes that the program reads.
#[derive(Clone, Debug, PartialEq, Eq)]
pub struct Instruction {
    pub program_id: Identity,
    pub accounts: Vec<AccountMeta>,
    pub data: Vec<u8>,
}

/// What an instruction is, apart from how it is stored.
pub struct InstructionView {
    pub program_id: Seq<u8>,
    pub accounts: Seq<AccountMeta>,
    pub data: Seq<u8>,
}

impl View for Instruction {
    type V = InstructionView;

    open spec fn view(&self) -> InstructionView {
        InstructionView {
            program_id: self.program_id@,
            accounts: self.accounts@,
            data: self.data@,
        }
    }
}

impl Instruction {
    /// The instruction for a program with the given bytes and accounts.
    pub fn new_with_bytes(program_id: Identity, data: &[u8], accounts: Vec<AccountMeta>) -> (instruction:
        Instruction)
        ensures
            instruction@ == (InstructionView {
                program_id: program_id@,
                accounts: accounts@,
                data: data@,
            }),
    {
        Instruction { program_id, accounts, data: vstd::slice::slice_to_vec(data) }
    }
}

/// The identity of the program that creates accounts: 32 zero bytes.
pub open spec fn system_program() -> Seq<u8> {
    Seq::new(32, |i: int| 0u8)
}

/// The bytes by which the system program is told to create an account at an
/// address derived from a base and a seed, with a balance, a size and an
/// owner.
pub uninterp spec fn create_with_seed_data(
    base: Seq<u8>,
    seed: Seq<char>,
    lamports: u64,
    space: u64,
    owner: Seq<u8>,
) -> Seq<u8>;

/// The instruction that creates an account at a derived address.
pub open spec fn account_creation(
    from: Identity,
    to: Identity,
    base: Identity,
    seed: Seq<char>,
    lamports: u64,
    space: u64,
    owner: Identity,
) -> InstructionView {
    InstructionView {
        program_id: system_program(),
        accounts: seq![
            AccountMeta { pubkey: from, is_signer: true, is_writable: true },
            AccountMeta { pubkey: to, is_signer: false, is_writable: true },
            AccountMeta { pubkey: base, is_signer: true, is_writable: false },
        ],
        data: create_with_seed_data(base@, seed, lamports, space, owner@),
    }
}

/// `solana_sdk::system_instruction::create_account_with_seed`: an instruction
/// for the system program that names three accounts, the payer as a writable
/// signer, the new account as writable, the base as a signer that is only
/// read, and carries the encoded request.
#[verifier::external_body]
fn system_create_account_with_seed(
    from: &Identity,
    to: &Identity,
    base: &Identity,
    seed: &str,
    lamports: u64,
    space: u64,
    owner: &Identity,
) -> (instruction: Instruction)
    ensures
        instruction@.program_id == system_program(),
        instruction@.accounts == account_creation(
            *from,
            *to,
            *base,
            seed@,
            lamports,
            space,
            *owner,
        ).accounts,
        instruction@.data == create_with_seed_data(base@, seed@, lamports, space, owner@),
{
    let key = |id: &Identity| Pubkey::new_from_array(id.bytes);
    let made = solana_sdk::system_instruction::create_account_with_seed(
        &key(from), &key(to), &key(base), seed, lamports, space, &key(owner),
    );
    let meta = |meta: &solana_program::instruction::AccountMeta| AccountMeta {
        pubkey: Identity { bytes: meta.pubkey.to_bytes() },
        is_signer: meta.is_signer,
        is_writable: meta.is_writable,
    };
    Instruction {
        program_id: Identity { bytes: made.program_id.to_bytes() },
        accounts: made.accounts.iter().map(meta).collect(),
        data: made.data,
    }
}

impl Instruction {
    /// The instruction by which `from` pays for a new account at `to`, the
    /// address derived from `base`, `seed` and `owner`, with `lamports` as
    /// its balance and room for `space` bytes.
    pub fn create_account_with_seed(
        from: &Identity,
        to: &Identity,
        base: &Identity,
        seed: &str,
        lamports: u64,
        space: u64,
        owner: &Identity,
    ) -> (instruction: Instruction)
        ensures
            instruction@ == account_creation(*from, *to, *base, seed@, lamports, space, *owner),
    {
        system_create_account_with_seed(from, to, base, seed, lamports, space, owner)
    }
}

} // verus!
