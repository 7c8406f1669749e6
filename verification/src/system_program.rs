//! Instructions to the ledger's system program, which allocates accounts and
//! moves balances between them.

use crate::account::Account;
use crate::encoding::{le_bytes, write_bytes, write_le};
use crate::pubkey::Pubkey;
use vstd::prelude::*;

verus! {

/// The address of the system program.
pub const ID: Pubkey = [
    0, 0, 0, 0, 0, 0, 0, 0, 0, 0, 0, 0, 0, 0, 0, 0, 0, 0, 0, 0, 0, 0, 0, 0, 0, 0, 0, 0, 0, 0, 0, 0,
];

/// The system program's number for the allocation of an account.
pub const CREATE_ACCOUNT: u32 = 0;

/// The system program's number for a transfer.
pub const TRANSFER: u32 = 2;

/// How an instruction refers to one of its accounts.
#[derive(Debug, Clone, Copy, PartialEq, Eq)]
pub struct AccountMeta {
    /// The account's address.
    pub pubkey: Pubkey,
    /// Whether the instruction may change the account.
    pub is_writable: bool,
    /// Whether the account signs the instruction.
    pub is_signer: bool,
}

/// An instruction for another program, to be invoked by the caller.
#[derive(Debug, PartialEq, Eq)]
pub struct Instruction {
    /// The program that is to carry it out.
    pub program_id: Pubkey,
    /// The accounts it works on, in order.
    pub accounts: Vec<AccountMeta>,
    /// Its operation and arguments as bytes.
    pub data: Vec<u8>,
    /// The seeds of the derived address that signs it, the salt last; empty
    /// where no derived address signs.
    pub signer_seeds: Vec<Vec<u8>>,
}

/// What an `Instruction` holds, as sequences.
pub struct InstructionView {
    pub program_id: Pubkey,
    pub accounts: Seq<AccountMeta>,
    pub data: Seq<u8>,
    pub signer_seeds: Seq<Seq<u8>>,
}

impl View for Instruction {
    type V = InstructionView;

    open spec fn view(&self) -> InstructionView {
        InstructionView {
            program_id: self.program_id,
            accounts: self.accounts@,
            data: self.data@,
            signer_seeds: self.signer_seeds.deep_view(),
        }
    }
}

/// The instruction that allocates the account `to` with `space` bytes, owned
/// by `owner` and funded with `lamports` from `from`: the operation's number
/// in four bytes, the two amounts in eight bytes each, then the owner. Both
/// accounts sign, `to` through the seeds of its derived address.
pub open spec fn create_account_instruction(
    from: Pubkey,
    to: Pubkey,
    lamports: u64,
    space: u64,
    owner: Pubkey,
    seeds: Seq<Seq<u8>>,
) -> InstructionView {
    InstructionView {
        program_id: ID,
        accounts: seq![
            AccountMeta { pubkey: from, is_writable: true, is_signer: true },
            AccountMeta { pubkey: to, is_writable: true, is_signer: true },
        ],
        data: le_bytes(0, 4) + le_bytes(lamports as nat, 8) + le_bytes(space as nat, 8) + owner@,
        signer_seeds: seeds,
    }
}

/// The instruction that moves `lamports` from `from`, which signs, to `to`:
/// the operation's number in four bytes, then the amount in eight.
pub open spec fn transfer_instruction(from: Pubkey, to: Pubkey, lamports: u64) -> InstructionView {
    InstructionView {
        program_id: ID,
        accounts: seq![
            AccountMeta { pubkey: from, is_writable: true, is_signer: true },
            AccountMeta { pubkey: to, is_writable: true, is_signer: false },
        ],
        data: le_bytes(2, 4) + le_bytes(lamports as nat, 8),
        signer_seeds: Seq::empty(),
    }
}

/// Builds the instruction that allocates the account `to`, paid for by `from`
/// and signed for with `seeds`.
pub fn create_account(
    from: &Account,
    to: &Account,
    lamports: u64,
    space: u64,
    owner: &Pubkey,
    seeds: Vec<Vec<u8>>,
) -> (instruction: Instruction)
    ensures
        instruction@ == create_account_instruction(
            from.key,
            to.key,
            lamports,
            space,
            *owner,
            seeds.deep_view(),
        ),
{
    let mut data: Vec<u8> = Vec::new();
    write_le(&mut data, CREATE_ACCOUNT as u64, 4);
    write_le(&mut data, lamports, 8);
    write_le(&mut data, space, 8);
    write_bytes(&mut data, owner.as_slice());
    let mut accounts: Vec<AccountMeta> = Vec::new();
    accounts.push(AccountMeta { pubkey: from.key, is_writable: true, is_signer: true });
    accounts.push(AccountMeta { pubkey: to.key, is_writable: true, is_signer: true });
    let instruction = Instruction { program_id: ID, accounts, data, signer_seeds: seeds };
    assert(instruction@.accounts =~= create_account_instruction(
        from.key,
        to.key,
        lamports,
        space,
        *owner,
        seeds.deep_view(),
    ).accounts);
    assert(instruction@.data =~= le_bytes(0, 4) + le_bytes(lamports as nat, 8) + le_bytes(
        space as nat,
        8,
    ) + owner@);
    instruction
}

/// Builds the instruction that moves `lamports` from `from` to `to`.
pub fn transfer(from: &Account, to: &Account, lamports: u64) -> (instruction: Instruction)
    ensures
        instruction@ == transfer_instruction(from.key, to.key, lamports),
{
    let mut data: Vec<u8> = Vec::new();
    write_le(&mut data, TRANSFER as u64, 4);
    write_le(&mut data, lamports, 8);
    let mut accounts: Vec<AccountMeta> = Vec::new();
    accounts.push(AccountMeta { pubkey: from.key, is_writable: true, is_signer: true });
    accounts.push(AccountMeta { pubkey: to.key, is_writable: true, is_signer: false });
    let signer_seeds: Vec<Vec<u8>> = Vec::new();
    let instruction = Instruction { program_id: ID, accounts, data, signer_seeds };
    assert(instruction@.accounts =~= transfer_instruction(from.key, to.key, lamports).accounts);
    assert(instruction@.data =~= le_bytes(2, 4) + le_bytes(lamports as nat, 8));
    assert(instruction@.signer_seeds =~= Seq::<Seq<u8>>::empty());
    instruction
}

} // verus!
