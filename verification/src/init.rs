//! Creating a program's account on its first use (`#[account(init, ..)]`):
//! the invocations of the system program that create or complete the
//! account, and the checks that follow them.
use vstd::prelude::*;
use vstd::bytes::spec_u64_to_le_bytes;
use crate::account::{AccountView, Instruction, InstructionSpec, check_program, meta, spec_check_program};
use crate::codec::account_bytes;
use crate::error::{ErrorCode, ProgramError};
use crate::pubkey::{Pubkey, spec_system_program_id, system_program_id};
use crate::system::{
    spec_allocate_instruction, spec_assign_instruction, spec_create_account_instruction,
    spec_transfer_lamports_instruction, system_allocate, system_assign, system_create_account,
    system_transfer,
};

verus! {

/// The work an initializing instruction asks of the runtime, and what it ends
/// with: first make the `invocations` in order; once they have all succeeded,
/// the instruction ends with `after`, the data of the new account (or the
/// error that fails the whole transaction).
pub struct InitPlan {
    pub invocations: Vec<Instruction>,
    pub after: Result<Vec<u8>, ProgramError>,
}

/// Mathematical form of an `InitPlan`.
pub struct InitPlanSpec {
    pub invocations: Seq<InstructionSpec>,
    pub after: Result<Seq<u8>, ProgramError>,
}

impl View for InitPlan {
    type V = InitPlanSpec;

    open spec fn view(&self) -> InitPlanSpec {
        InitPlanSpec {
            invocations: self.invocations@.map_values(|ix: Instruction| ix@),
            after: match self.after {
                Ok(d) => Ok(d@),
                Err(e) => Err(e),
            },
        }
    }
}

/// The lamports still missing for rent exemption: at least one lamport in
/// all, less what the account holds (never below zero).
pub open spec fn spec_required_lamports(rent_minimum: u64, current: u64) -> u64 {
    let target: u64 = if rent_minimum > 1 { rent_minimum } else { 1 };
    if target > current { (target - current) as u64 } else { 0 }
}

/// The invocations that make `account` a `space`-byte account of `owner`,
/// paid by `payer`. An account without lamports is created in one step;
/// one that holds lamports is topped up to the rent minimum (where needed),
/// given its space, then handed to `owner`. The payer cannot be the account.
pub open spec fn spec_init_invocations(
    payer: AccountView,
    account: AccountView,
    space: u64,
    rent_minimum: u64,
    owner: Seq<u8>,
) -> Result<Seq<InstructionSpec>, ErrorCode> {
    if account.lamports == 0 {
        Ok(seq![spec_create_account_instruction(payer.key@, account.key@, rent_minimum, space, owner)])
    } else if payer.key@ == account.key@ {
        Err(ErrorCode::TryingToInitPayerAsProgramAccount)
    } else {
        let required = spec_required_lamports(rent_minimum, account.lamports);
        let top_up = if required > 0 {
            seq![spec_transfer_lamports_instruction(payer.key@, account.key@, required)]
        } else {
            Seq::<InstructionSpec>::empty()
        };
        Ok(top_up + seq![spec_allocate_instruction(account.key@, space), spec_assign_instruction(account.key@, owner)])
    }
}

/// Builds the invocations of `spec_init_invocations`.
pub fn init_invocations(
    payer: &AccountView,
    account: &AccountView,
    space: u64,
    rent_minimum: u64,
    owner: &Pubkey,
) -> (r: Result<Vec<Instruction>, ErrorCode>)
    ensures
        match spec_init_invocations(*payer, *account, space, rent_minimum, owner@) {
            Ok(s) => r matches Ok(ixs) && ixs@.map_values(|ix: Instruction| ix@) == s,
            Err(e) => r matches Err(e2) && e2 == e,
        },
{
    let mut ixs: Vec<Instruction> = Vec::new();
    if account.lamports == 0 {
        ixs.push(system_create_account(&payer.key, &account.key, rent_minimum, space, owner));
        assert(ixs@.map_values(|ix: Instruction| ix@) =~= seq![
            spec_create_account_instruction(payer.key@, account.key@, rent_minimum, space, owner@)]);
        return Ok(ixs);
    }
    if payer.key.key_eq(&account.key) {
        return Err(ErrorCode::TryingToInitPayerAsProgramAccount);
    }
    let target: u64 = if rent_minimum > 1 { rent_minimum } else { 1 };
    let required: u64 = if target > account.lamports { target - account.lamports } else { 0 };
    let ghost top_up = if required > 0 {
        seq![spec_transfer_lamports_instruction(payer.key@, account.key@, required)]
    } else {
        Seq::<InstructionSpec>::empty()
    };
    if required > 0 {
        ixs.push(system_transfer(&payer.key, &account.key, required));
    }
    assert(ixs@.map_values(|ix: Instruction| ix@) =~= top_up);
    ixs.push(system_allocate(&account.key, space));
    ixs.push(system_assign(&account.key, owner));
    assert(ixs@.map_values(|ix: Instruction| ix@) =~= top_up + seq![
        spec_allocate_instruction(account.key@, space), spec_assign_instruction(account.key@, owner@)]);
    Ok(ixs)
}

/// Checking the three accounts of an initializing instruction in the order
/// they are taken: the payer (at `payer_index`, 0 or 1) must have signed, the
/// new account sits at the other of the first two places, and the third
/// account must be the system program.
pub open spec fn spec_init_accounts(accounts: Seq<AccountView>, payer_index: int) -> Result<(), ErrorCode> {
    if accounts.len() < 1 {
        Err(ErrorCode::AccountNotEnoughKeys)
    } else if payer_index == 0 && !accounts[0].is_signer {
        Err(ErrorCode::AccountNotSigner)
    } else if accounts.len() < 2 {
        Err(ErrorCode::AccountNotEnoughKeys)
    } else if payer_index == 1 && !accounts[1].is_signer {
        Err(ErrorCode::AccountNotSigner)
    } else if accounts.len() < 3 {
        Err(ErrorCode::AccountNotEnoughKeys)
    } else {
        spec_check_program(accounts[2], spec_system_program_id())
    }
}

/// What follows the invocations: the new account must be writable and have
/// signed, then the payer must be writable; the account ends holding its
/// discriminator and `value` (its 16 bytes created zeroed, then written).
pub open spec fn spec_init_after(payer: AccountView, account: AccountView, disc: Seq<u8>, value: u64) -> Result<Seq<u8>, ProgramError> {
    if !account.is_writable {
        Err(ProgramError::Anchor(ErrorCode::ConstraintMut))
    } else if !account.is_signer {
        Err(ProgramError::Anchor(ErrorCode::ConstraintSigner))
    } else if !payer.is_writable {
        Err(ProgramError::Anchor(ErrorCode::ConstraintMut))
    } else {
        Ok(account_bytes(disc, value))
    }
}

/// What an initializing instruction of a program `owner` does for a 16-byte
/// account of one `u64` field whose handler leaves `value` in it.
pub open spec fn spec_process_init(
    accounts: Seq<AccountView>,
    payer_index: int,
    rent_minimum: u64,
    owner: Seq<u8>,
    disc: Seq<u8>,
    value: u64,
) -> Result<InitPlanSpec, ProgramError> {
    match spec_init_accounts(accounts, payer_index) {
        Err(e) => Err(ProgramError::Anchor(e)),
        Ok(_) => {
            let payer = accounts[payer_index];
            let account = accounts[1 - payer_index];
            match spec_init_invocations(payer, account, 16, rent_minimum, owner) {
                Err(e) => Err(ProgramError::Anchor(e)),
                Ok(ixs) => Ok(InitPlanSpec { invocations: ixs, after: spec_init_after(payer, account, disc, value) }),
            }
        },
    }
}

/// Checks the three accounts of an initializing instruction (see
/// `spec_init_accounts`).
pub fn check_init_accounts(accounts: &Vec<AccountView>, payer_index: usize) -> (r: Result<(), ErrorCode>)
    requires
        payer_index <= 1,
    ensures
        r == spec_init_accounts(accounts@, payer_index as int),
{
    if accounts.len() < 1 {
        return Err(ErrorCode::AccountNotEnoughKeys);
    }
    if payer_index == 0 && !accounts[0].is_signer {
        return Err(ErrorCode::AccountNotSigner);
    }
    if accounts.len() < 2 {
        return Err(ErrorCode::AccountNotEnoughKeys);
    }
    if payer_index == 1 && !accounts[1].is_signer {
        return Err(ErrorCode::AccountNotSigner);
    }
    if accounts.len() < 3 {
        return Err(ErrorCode::AccountNotEnoughKeys);
    }
    let system = system_program_id();
    check_program(&accounts[2], &system)
}

/// Plans the creation of `account`, paid by `payer`, as a 16-byte account of
/// `owner` that ends holding `disc` and `value`.
pub fn plan_init(
    payer: &AccountView,
    account: &AccountView,
    rent_minimum: u64,
    owner: &Pubkey,
    disc: &[u8; 8],
    value: u64,
) -> (r: Result<InitPlan, ProgramError>)
    ensures
        match spec_init_invocations(*payer, *account, 16, rent_minimum, owner@) {
            Ok(ixs) => r matches Ok(plan) && plan@ == (InitPlanSpec {
                invocations: ixs,
                after: spec_init_after(*payer, *account, disc@, value),
            }),
            Err(e) => r matches Err(e2) && e2 == ProgramError::Anchor(e),
        },
{
    let invocations = match init_invocations(payer, account, 16, rent_minimum, owner) {
        Ok(ixs) => ixs,
        Err(e) => return Err(ProgramError::Anchor(e)),
    };
    let after = if !account.is_writable {
        Err(ProgramError::Anchor(ErrorCode::ConstraintMut))
    } else if !account.is_signer {
        Err(ProgramError::Anchor(ErrorCode::ConstraintSigner))
    } else if !payer.is_writable {
        Err(ProgramError::Anchor(ErrorCode::ConstraintMut))
    } else {
        let mut data: Vec<u8> = Vec::new();
        crate::codec::push_all(&mut data, disc);
        let le = vstd::bytes::u64_to_le_bytes(value);
        crate::codec::push_all(&mut data, le.as_slice());
        Ok(data)
    };
    Ok(InitPlan { invocations, after })
}

/// How an initializing instruction pays for and creates its 16-byte account,
/// once the payer (at `payer_index`) has signed and the third account is the
/// executable system program. A new account without lamports is created by
/// one `CreateAccount` from the payer, funded with exactly `rent_minimum`
/// lamports, 16 bytes, owned by `owner`. One that holds `l` lamports is the
/// payer itself (refused), or is topped up by a `Transfer` of the missing
/// `rent_minimum - l` lamports from the payer (none when it holds enough),
/// then given its 16 bytes and handed to `owner`. Once those succeed, the
/// account holds `disc` and `value` when it is writable and has signed and
/// the payer is writable; otherwise the instruction fails with the first of
/// those constraints that is broken.
pub proof fn law_init_plan(
    accounts: Seq<AccountView>,
    payer_index: int,
    rent_minimum: u64,
    owner: Seq<u8>,
    disc: Seq<u8>,
    value: u64,
)
    requires
        payer_index == 0 || payer_index == 1,
        accounts.len() >= 3,
        accounts[payer_index].is_signer,
        accounts[2].key@ == spec_system_program_id(),
        accounts[2].executable,
    ensures
        ({
            let payer = accounts[payer_index];
            let account = accounts[1 - payer_index];
            let r = spec_process_init(accounts, payer_index, rent_minimum, owner, disc, value);
            &&& (account.lamports == 0 ==> (r matches Ok(p) && p.invocations == seq![
                InstructionSpec {
                    program_id: spec_system_program_id(),
                    accounts: seq![meta(payer.key@, true, true), meta(account.key@, true, true)],
                    data: seq![0u8, 0, 0, 0] + spec_u64_to_le_bytes(rent_minimum) + spec_u64_to_le_bytes(16) + owner,
                },
            ]))
            &&& (account.lamports > 0 && account.key@ == payer.key@ ==> r == Err::<InitPlanSpec, ProgramError>(
                ProgramError::Anchor(ErrorCode::TryingToInitPayerAsProgramAccount)))
            &&& (account.lamports > 0 && account.key@ != payer.key@ ==> (r matches Ok(p) && p.invocations == (if rent_minimum > account.lamports {
                    seq![InstructionSpec {
                        program_id: spec_system_program_id(),
                        accounts: seq![meta(payer.key@, true, true), meta(account.key@, false, true)],
                        data: seq![2u8, 0, 0, 0] + spec_u64_to_le_bytes((rent_minimum - account.lamports) as u64),
                    }]
                } else {
                    Seq::<InstructionSpec>::empty()
                }) + seq![
                    InstructionSpec {
                        program_id: spec_system_program_id(),
                        accounts: seq![meta(account.key@, true, true)],
                        data: seq![8u8, 0, 0, 0] + spec_u64_to_le_bytes(16),
                    },
                    InstructionSpec {
                        program_id: spec_system_program_id(),
                        accounts: seq![meta(account.key@, true, true)],
                        data: seq![1u8, 0, 0, 0] + owner,
                    },
                ]))
            &&& (r matches Ok(p) ==> {
                &&& (!account.is_writable ==> p.after == Err::<Seq<u8>, ProgramError>(ProgramError::Anchor(ErrorCode::ConstraintMut)))
                &&& (account.is_writable && !account.is_signer ==> p.after == Err::<Seq<u8>, ProgramError>(
                    ProgramError::Anchor(ErrorCode::ConstraintSigner)))
                &&& (account.is_writable && account.is_signer && !payer.is_writable ==> p.after == Err::<Seq<u8>, ProgramError>(
                    ProgramError::Anchor(ErrorCode::ConstraintMut)))
                &&& (account.is_writable && account.is_signer && payer.is_writable ==> p.after == Ok::<Seq<u8>, ProgramError>(
                    disc + spec_u64_to_le_bytes(value)))
            })
        }),
{
}

/// An initializing instruction runs only with its payer's signature and the
/// system program: whenever it is accepted, three accounts were passed, the
/// payer (at `payer_index`) signed, and the third is the executable system
/// program.
pub proof fn law_init_needs_payer_and_system(
    accounts: Seq<AccountView>,
    payer_index: int,
    rent_minimum: u64,
    owner: Seq<u8>,
    disc: Seq<u8>,
    value: u64,
)
    requires
        payer_index == 0 || payer_index == 1,
    ensures
        spec_process_init(accounts, payer_index, rent_minimum, owner, disc, value) is Ok ==> {
            &&& accounts.len() >= 3
            &&& accounts[payer_index].is_signer
            &&& accounts[2].key@ == spec_system_program_id()
            &&& accounts[2].executable
        },
{
}

} // verus!
