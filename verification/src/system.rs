//! Instructions of the system program that the programs invoke, built by the
//! system program's own interface crate.
use vstd::prelude::*;
use vstd::bytes::spec_u64_to_le_bytes;
use anchor_lang::prelude::Pubkey as SolanaPubkey;
use crate::account::{AccountMeta, Instruction, InstructionSpec, meta};
use crate::pubkey::{Pubkey, spec_system_program_id};

verus! {

/// `CreateAccount`: bincode lays it out as variant 0 (a little-endian `u32`),
/// lamports, space and owner.
pub open spec fn spec_create_account_instruction(
    from: Seq<u8>,
    to: Seq<u8>,
    lamports: u64,
    space: u64,
    owner: Seq<u8>,
) -> InstructionSpec {
    InstructionSpec {
        program_id: spec_system_program_id(),
        accounts: seq![meta(from, true, true), meta(to, true, true)],
        data: seq![0u8, 0, 0, 0] + spec_u64_to_le_bytes(lamports) + spec_u64_to_le_bytes(space) + owner,
    }
}

/// `Assign`: variant 1, then the new owner.
pub open spec fn spec_assign_instruction(account: Seq<u8>, owner: Seq<u8>) -> InstructionSpec {
    InstructionSpec {
        program_id: spec_system_program_id(),
        accounts: seq![meta(account, true, true)],
        data: seq![1u8, 0, 0, 0] + owner,
    }
}

/// `Transfer`: variant 2, then the lamports.
pub open spec fn spec_transfer_lamports_instruction(from: Seq<u8>, to: Seq<u8>, lamports: u64) -> InstructionSpec {
    InstructionSpec {
        program_id: spec_system_program_id(),
        accounts: seq![meta(from, true, true), meta(to, false, true)],
        data: seq![2u8, 0, 0, 0] + spec_u64_to_le_bytes(lamports),
    }
}

/// `Allocate`: variant 8, then the space.
pub open spec fn spec_allocate_instruction(account: Seq<u8>, space: u64) -> InstructionSpec {
    InstructionSpec {
        program_id: spec_system_program_id(),
        accounts: seq![meta(account, true, true)],
        data: seq![8u8, 0, 0, 0] + spec_u64_to_le_bytes(space),
    }
}

/// Calls `solana_program::system_instruction::create_account`, which
/// `anchor_lang::system_program::create_account` invokes. Claimed: the
/// instruction goes to the system program, lists the funding and the new
/// account as writable signers, and carries the bincode encoding of
/// `CreateAccount { lamports, space, owner }`.
#[verifier::external_body]
pub(crate) fn system_create_account(from: &Pubkey, to: &Pubkey, lamports: u64, space: u64, owner: &Pubkey) -> (ix: Instruction)
    ensures
        ix@ == spec_create_account_instruction(from@, to@, lamports, space, owner@),
{
    #[allow(deprecated)]
    let ix = anchor_lang::solana_program::system_instruction::create_account(
        &SolanaPubkey::new_from_array(from.bytes),
        &SolanaPubkey::new_from_array(to.bytes),
        lamports,
        space,
        &SolanaPubkey::new_from_array(owner.bytes),
    );
    let accounts = ix.accounts.iter().map(|m| AccountMeta { pubkey: Pubkey { bytes: m.pubkey.to_bytes() }, is_signer: m.is_signer, is_writable: m.is_writable }).collect();
    Instruction { program_id: Pubkey { bytes: ix.program_id.to_bytes() }, accounts, data: ix.data }
}

/// Calls `solana_program::system_instruction::transfer`, which
/// `anchor_lang::system_program::transfer` invokes. Claimed: the funding
/// account is a writable signer, the receiver writable, and the data is the
/// bincode encoding of `Transfer { lamports }`.
#[verifier::external_body]
pub(crate) fn system_transfer(from: &Pubkey, to: &Pubkey, lamports: u64) -> (ix: Instruction)
    ensures
        ix@ == spec_transfer_lamports_instruction(from@, to@, lamports),
{
    #[allow(deprecated)]
    let ix = anchor_lang::solana_program::system_instruction::transfer(
        &SolanaPubkey::new_from_array(from.bytes),
        &SolanaPubkey::new_from_array(to.bytes),
        lamports,
    );
    let accounts = ix.accounts.iter().map(|m| AccountMeta { pubkey: Pubkey { bytes: m.pubkey.to_bytes() }, is_signer: m.is_signer, is_writable: m.is_writable }).collect();
    Instruction { program_id: Pubkey { bytes: ix.program_id.to_bytes() }, accounts, data: ix.data }
}

/// Calls `solana_program::system_instruction::allocate`, which
/// `anchor_lang::system_program::allocate` invokes. Claimed: the account is a
/// writable signer and the data is the bincode encoding of
/// `Allocate { space }`.
#[verifier::external_body]
pub(crate) fn system_allocate(account: &Pubkey, space: u64) -> (ix: Instruction)
    ensures
        ix@ == spec_allocate_instruction(account@, space),
{
    #[allow(deprecated)]
    let ix = anchor_lang::solana_program::system_instruction::allocate(&SolanaPubkey::new_from_array(account.bytes), space);
    let accounts = ix.accounts.iter().map(|m| AccountMeta { pubkey: Pubkey { bytes: m.pubkey.to_bytes() }, is_signer: m.is_signer, is_writable: m.is_writable }).collect();
    Instruction { program_id: Pubkey { bytes: ix.program_id.to_bytes() }, accounts, data: ix.data }
}

/// Calls `solana_program::system_instruction::assign`, which
/// `anchor_lang::system_program::assign` invokes. Claimed: the account is a
/// writable signer and the data is the bincode encoding of
/// `Assign { owner }`.
#[verifier::external_body]
pub(crate) fn system_assign(account: &Pubkey, owner: &Pubkey) -> (ix: Instruction)
    ensures
        ix@ == spec_assign_instruction(account@, owner@),
{
    #[allow(deprecated)]
    let ix = anchor_lang::solana_program::system_instruction::assign(
        &SolanaPubkey::new_from_array(account.bytes),
        &SolanaPubkey::new_from_array(owner.bytes),
    );
    let accounts = ix.accounts.iter().map(|m| AccountMeta { pubkey: Pubkey { bytes: m.pubkey.to_bytes() }, is_signer: m.is_signer, is_writable: m.is_writable }).collect();
    Instruction { program_id: Pubkey { bytes: ix.program_id.to_bytes() }, accounts, data: ix.data }
}

} // verus!
