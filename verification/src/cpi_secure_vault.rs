//! The vault program: an account holding one value that changes only when
//! its authority, the proxy program's address for the seed `controller_auth`,
//! has signed the instruction.
use vstd::prelude::*;
use crate::account::{InstructionSpec, meta};
use crate::pubkey::spec_system_program_id;
use vstd::bytes::spec_u64_to_le_bytes;
use crate::account::{
    Dispatch, framework_dispatch, spec_framework_dispatch,
    check_declared_id,
    AccountView, check_mut, check_owner, check_signer, data_replaced, set_data, spec_check_owner,
};
use crate::codec::{
    account_bytes, has_prefix, instruction_data, instruction_data_u64, read_u64_account,
    read_u64_arg, spec_read_u64_account, spec_read_u64_arg, starts_with, write_u64_account,
};
use crate::error::{ErrorCode, ProgramError};
use crate::init::{InitPlan, InitPlanSpec, check_init_accounts, plan_init, spec_init_accounts, spec_process_init};
use crate::cpi_secure_proxy::{authority_seeds, proxy_program_id, spec_authority_seeds, spec_proxy_program_id};
use crate::pubkey::{Pubkey, find_program_address, pda_search};

verus! {

/// `4s6WGZESrg51X63AbYT94uxck9fSBuPM2EeUk5wbZcxV`
pub open spec fn spec_vault_program_id() -> Seq<u8> {
    seq![
        57u8, 104, 83, 72, 231, 231, 133, 190, 104, 244, 130, 37, 116, 125, 117, 215,
        194, 165, 211, 89, 126, 218, 4, 72, 23, 92, 213, 201, 146, 113, 190, 222,
    ]
}

pub fn vault_program_id() -> (k: Pubkey)
    ensures
        k@ == spec_vault_program_id(),
{
    let k = Pubkey {
        bytes: [
            57, 104, 83, 72, 231, 231, 133, 190, 104, 244, 130, 37, 116, 125, 117, 215,
            194, 165, 211, 89, 126, 218, 4, 72, 23, 92, 213, 201, 146, 113, 190, 222,
        ],
    };
    assert(k@ =~= spec_vault_program_id());
    k
}

/// First eight bytes of sha256("account:VaultData").
pub open spec fn spec_vault_data_discriminator() -> Seq<u8> {
    seq![130u8, 212, 101, 247, 146, 181, 149, 100]
}

pub fn vault_data_discriminator() -> (d: [u8; 8])
    ensures
        d@ == spec_vault_data_discriminator(),
{
    let d: [u8; 8] = [130, 212, 101, 247, 146, 181, 149, 100];
    assert(d@ =~= spec_vault_data_discriminator());
    d
}

/// First eight bytes of sha256("global:initialize").
pub open spec fn spec_vault_initialize_discriminator() -> Seq<u8> {
    seq![175u8, 175, 109, 31, 13, 152, 155, 237]
}

/// First eight bytes of sha256("global:update_contents").
pub open spec fn spec_update_contents_discriminator() -> Seq<u8> {
    seq![203u8, 26, 249, 5, 104, 162, 236, 11]
}

pub fn update_contents_discriminator() -> (d: [u8; 8])
    ensures
        d@ == spec_update_contents_discriminator(),
{
    let d: [u8; 8] = [203, 26, 249, 5, 104, 162, 236, 11];
    assert(d@ =~= spec_update_contents_discriminator());
    d
}

/// Bytes a vault account takes: discriminator and one `u64`.
pub const VAULT_DATA_SPACE: u64 = 16;

/// The state of a vault account.
#[derive(Debug, Clone, Copy, PartialEq, Eq, Structural)]
pub struct VaultData {
    pub data_value: u64,
}

pub open spec fn spec_load_vault_data(data: Seq<u8>) -> Result<VaultData, ErrorCode> {
    match spec_read_u64_account(data, spec_vault_data_discriminator()) {
        Ok(v) => Ok(VaultData { data_value: v }),
        Err(e) => Err(e),
    }
}

impl VaultData {
    pub fn try_deserialize(data: &[u8]) -> (r: Result<VaultData, ErrorCode>)
        ensures
            r == spec_load_vault_data(data@),
    {
        let disc = vault_data_discriminator();
        match read_u64_account(data, &disc) {
            Ok(v) => Ok(VaultData { data_value: v }),
            Err(e) => Err(e),
        }
    }

    /// Writes the state at the start of account data; a buffer shorter than
    /// `VAULT_DATA_SPACE` is refused and left as it was.
    pub fn try_serialize(&self, data: &mut Vec<u8>) -> (r: Result<(), ErrorCode>)
        ensures
            old(data)@.len() < 16 ==> r == Err::<(), ErrorCode>(ErrorCode::AccountDidNotSerialize)
                && final(data)@ == old(data)@,
            old(data)@.len() >= 16 ==> r is Ok && final(data)@ == account_bytes(
                spec_vault_data_discriminator(),
                self.data_value,
            ) + old(data)@.subrange(16, old(data)@.len() as int),
    {
        let disc = vault_data_discriminator();
        write_u64_account(data, &disc, self.data_value)
    }
}

/// Sets the value of a new vault to zero.
pub fn initialize(vault: &mut VaultData) -> (r: Result<(), ProgramError>)
    ensures
        r is Ok,
        final(vault).data_value == 0,
{
    vault.data_value = 0;
    Ok(())
}

/// Stores `new_value` in the vault. The authority's identity and signature
/// are checked when the accounts are loaded (`AccessVault::try_accounts`).
pub fn update_contents(vault: &mut VaultData, new_value: u64) -> (r: Result<(), ProgramError>)
    ensures
        r is Ok,
        final(vault).data_value == new_value,
{
    vault.data_value = new_value;
    Ok(())
}

/// The vault program's instructions.
#[derive(Debug, Clone, Copy, PartialEq, Eq, Structural)]
pub enum VaultInstruction {
    Initialize,
    UpdateContents { new_value: u64 },
}

pub open spec fn spec_vault_instruction_data(ix: VaultInstruction) -> Seq<u8> {
    match ix {
        VaultInstruction::Initialize => spec_vault_initialize_discriminator(),
        VaultInstruction::UpdateContents { new_value } => spec_update_contents_discriminator()
            + spec_u64_to_le_bytes(new_value),
    }
}

/// Which instruction `data` selects and with which argument; `Ok(None)` for
/// data that selects none of this program's instructions.
pub open spec fn spec_decode_vault_instruction(data: Seq<u8>) -> Result<Option<VaultInstruction>, ErrorCode> {
    if starts_with(data, spec_vault_initialize_discriminator()) {
        Ok(Some(VaultInstruction::Initialize))
    } else if starts_with(data, spec_update_contents_discriminator()) {
        match spec_read_u64_arg(data.subrange(8, data.len() as int)) {
            Ok(v) => Ok(Some(VaultInstruction::UpdateContents { new_value: v })),
            Err(e) => Err(e),
        }
    } else {
        Ok(None)
    }
}

impl VaultInstruction {
    pub fn data(&self) -> (d: Vec<u8>)
        ensures
            d@ == spec_vault_instruction_data(*self),
    {
        match self {
            VaultInstruction::Initialize => {
                let disc: [u8; 8] = [175, 175, 109, 31, 13, 152, 155, 237];
                assert(disc@ =~= spec_vault_initialize_discriminator());
                instruction_data(&disc)
            },
            VaultInstruction::UpdateContents { new_value } => {
                let disc = update_contents_discriminator();
                instruction_data_u64(&disc, *new_value)
            },
        }
    }

    pub fn decode(data: &[u8]) -> (r: Result<Option<VaultInstruction>, ErrorCode>)
        ensures
            r == spec_decode_vault_instruction(data@),
    {
        let init: [u8; 8] = [175, 175, 109, 31, 13, 152, 155, 237];
        assert(init@ =~= spec_vault_initialize_discriminator());
        let upd = update_contents_discriminator();
        if has_prefix(data, &init) {
            Ok(Some(VaultInstruction::Initialize))
        } else if has_prefix(data, &upd) {
            let args = vstd::slice::slice_subrange(data, 8, data.len());
            let v = read_u64_arg(args)?;
            Ok(Some(VaultInstruction::UpdateContents { new_value: v }))
        } else {
            Ok(None)
        }
    }
}

/// The accounts of `update_contents`, once loaded: the vault's state (the
/// first account) and the authority (the second), which has signed and is the
/// proxy's `controller_auth` address.
pub struct AccessVault {
    pub vault: VaultData,
    pub vault_authority: Pubkey,
}

/// Loading the accounts of `update_contents`: the first account must be an
/// existing vault of this program, the second must have signed, the vault
/// must be writable, and the second must be the vault's authority: the address
/// found for the seed `controller_auth` under the proxy program's id
/// (checked in that order).
pub open spec fn spec_access_vault_accounts(accounts: Seq<AccountView>) -> Result<VaultData, ErrorCode> {
    if accounts.len() < 1 {
        Err(ErrorCode::AccountNotEnoughKeys)
    } else {
        let v = accounts[0];
        match spec_check_owner(v, spec_vault_program_id()) {
            Err(e) => Err(e),
            Ok(_) => match spec_load_vault_data(v.data@) {
                Err(e) => Err(e),
                Ok(s) => if accounts.len() < 2 {
                    Err(ErrorCode::AccountNotEnoughKeys)
                } else if !accounts[1].is_signer {
                    Err(ErrorCode::AccountNotSigner)
                } else if !v.is_writable {
                    Err(ErrorCode::ConstraintMut)
                } else {
                    match pda_search(spec_authority_seeds(), spec_proxy_program_id()) {
                        Some((k, _)) => if k == accounts[1].key@ {
                            Ok(s)
                        } else {
                            Err(ErrorCode::ConstraintSeeds)
                        },
                        None => Err(ErrorCode::ConstraintSeeds),
                    }
                },
            },
        }
    }
}

impl AccessVault {
    pub fn try_accounts(accounts: &Vec<AccountView>) -> (r: Result<AccessVault, ErrorCode>)
        ensures
            match spec_access_vault_accounts(accounts@) {
                Ok(s) => r matches Ok(x) && x.vault == s && x.vault_authority@ == accounts@[1].key@,
                Err(e) => r matches Err(e2) && e2 == e,
            },
    {
        if accounts.len() < 1 {
            return Err(ErrorCode::AccountNotEnoughKeys);
        }
        let id = vault_program_id();
        check_owner(&accounts[0], &id)?;
        let vault = VaultData::try_deserialize(accounts[0].data.as_slice())?;
        if accounts.len() < 2 {
            return Err(ErrorCode::AccountNotEnoughKeys);
        }
        check_signer(&accounts[1])?;
        check_mut(&accounts[0])?;
        let seeds = authority_seeds();
        let proxy = proxy_program_id();
        match find_program_address(&seeds, &proxy) {
            Some((k, _)) => {
                if !k.key_eq(&accounts[1].key) {
                    return Err(ErrorCode::ConstraintSeeds);
                }
            },
            None => return Err(ErrorCode::ConstraintSeeds),
        }
        Ok(AccessVault { vault, vault_authority: accounts[1].key.copy() })
    }
}

/// What `update_contents` does, given the bytes after the discriminator: the
/// new data of the vault account, or why it fails.
pub open spec fn spec_process_update_contents(accounts: Seq<AccountView>, args: Seq<u8>) -> Result<Seq<u8>, ProgramError> {
    match spec_read_u64_arg(args) {
        Err(e) => Err(ProgramError::Anchor(e)),
        Ok(v) => match spec_access_vault_accounts(accounts) {
            Err(e) => Err(ProgramError::Anchor(e)),
            Ok(_) => Ok(account_bytes(spec_vault_data_discriminator(), v)
                + accounts[0].data@.subrange(16, accounts[0].data@.len() as int)),
        },
    }
}

/// Runs `update_contents`: reads the argument, loads the vault and checks the
/// authority's signature, stores the new value. On an error nothing changes.
pub fn process_update_contents(accounts: &mut Vec<AccountView>, args: &[u8]) -> (r: Result<(), ProgramError>)
    ensures
        match spec_process_update_contents(old(accounts)@, args@) {
            Ok(d) => r is Ok && data_replaced(old(accounts)@, final(accounts)@, 0, d),
            Err(e) => r == Err::<(), ProgramError>(e) && final(accounts)@ == old(accounts)@,
        },
{
    let new_value = match read_u64_arg(args) {
        Ok(v) => v,
        Err(e) => return Err(ProgramError::Anchor(e)),
    };
    let mut ix = match AccessVault::try_accounts(accounts) {
        Ok(ix) => ix,
        Err(e) => return Err(ProgramError::Anchor(e)),
    };
    update_contents(&mut ix.vault, new_value)?;
    let mut data = accounts[0].data.clone();
    match ix.vault.try_serialize(&mut data) {
        Ok(()) => {},
        Err(e) => return Err(ProgramError::Anchor(e)),
    }
    set_data(accounts, 0, data);
    Ok(())
}


/// What `initialize` does: its accounts are the new vault (signer,
/// writable), the paying user (signer, writable) and the system program.
/// `rent_minimum` is the rent-exempt minimum for `VAULT_DATA_SPACE` bytes.
pub open spec fn spec_process_initialize(accounts: Seq<AccountView>, rent_minimum: u64) -> Result<InitPlanSpec, ProgramError> {
    spec_process_init(accounts, 1, rent_minimum, spec_vault_program_id(), spec_vault_data_discriminator(), 0)
}

/// The accounts of `initialize`, once checked: the new vault (first) and
/// the paying user (second); the third is the system program.
pub struct Initialize {
    pub vault: Pubkey,
    pub user: Pubkey,
}

impl Initialize {
    pub fn try_accounts(accounts: &Vec<AccountView>) -> (r: Result<Initialize, ErrorCode>)
        ensures
            match spec_init_accounts(accounts@, 1) {
                Ok(_) => r matches Ok(x) && x.user@ == accounts@[1].key@
                    && x.vault@ == accounts@[0].key@,
                Err(e) => r matches Err(e2) && e2 == e,
            },
    {
        check_init_accounts(accounts, 1)?;
        Ok(Initialize { vault: accounts[0].key.copy(), user: accounts[1].key.copy() })
    }
}

/// Runs the initializing instruction: checks the accounts, plans the creation
/// of the new account, and ends with its field at zero.
pub fn process_initialize(accounts: &Vec<AccountView>, rent_minimum: u64) -> (r: Result<InitPlan, ProgramError>)
    ensures
        match spec_process_initialize(accounts@, rent_minimum) {
            Ok(p) => r matches Ok(plan) && plan@ == p,
            Err(e) => r matches Err(e2) && e2 == e,
        },
{
    match Initialize::try_accounts(accounts) {
        Ok(_) => {},
        Err(e) => return Err(ProgramError::Anchor(e)),
    }
    // The handler's effect on the freshly created (zeroed) vault.
    let mut vault = VaultData { data_value: 0 };
    initialize(&mut vault)?;
    let value = vault.data_value;
    let id = vault_program_id();
    let disc = vault_data_discriminator();
    plan_init(&accounts[1], &accounts[0], rent_minimum, &id, &disc, value)
}


/// The data of an instruction selects that instruction, with its argument.
pub proof fn law_vault_instruction_roundtrip(ix: VaultInstruction)
    ensures
        spec_decode_vault_instruction(spec_vault_instruction_data(ix)) == Ok::<Option<VaultInstruction>, ErrorCode>(Some(ix)),
{
    vstd::bytes::lemma_auto_spec_u64_to_from_le_bytes();
    let d = spec_vault_instruction_data(ix);
    match ix {
        VaultInstruction::Initialize => {
            assert(d.subrange(0, 8) =~= d);
        },
        VaultInstruction::UpdateContents { new_value } => {
            assert(d.subrange(0, 8) =~= spec_update_contents_discriminator());
            assert(d.subrange(0, 8)[0] != spec_vault_initialize_discriminator()[0]);
            assert(d.subrange(8, d.len() as int).subrange(0, 8) =~= spec_u64_to_le_bytes(new_value));
        },
    }
}

/// A stored vault loads back as the same vault, whatever follows it.
pub proof fn law_vault_load_after_store(s: VaultData, rest: Seq<u8>)
    ensures
        spec_load_vault_data(account_bytes(spec_vault_data_discriminator(), s.data_value) + rest) == Ok::<VaultData, ErrorCode>(s),
{
    crate::codec::lemma_read_after_write(spec_vault_data_discriminator(), s.data_value, rest);
}

/// Only the one authority may change the vault: an accepted
/// `update_contents` had as second account the address found for the seed
/// `controller_auth` under the proxy's program id, and that account signed.
/// On an existing, writable vault of this program, an unsigned second account
/// is refused with `AccountNotSigner`, and a signer that is not that address
/// with `ConstraintSeeds`.
pub proof fn law_vault_needs_signature(accounts: Seq<AccountView>, args: Seq<u8>)
    ensures
        spec_process_update_contents(accounts, args) is Ok ==> {
            &&& accounts.len() >= 2
            &&& accounts[1].is_signer
            &&& pda_search(spec_authority_seeds(), spec_proxy_program_id()) matches Some((k, _))
            &&& k == accounts[1].key@
        },
        (spec_read_u64_arg(args) is Ok && accounts.len() >= 2
            && spec_check_owner(accounts[0], spec_vault_program_id()) is Ok
            && spec_load_vault_data(accounts[0].data@) is Ok && !accounts[1].is_signer)
            ==> spec_process_update_contents(accounts, args) == Err::<Seq<u8>, ProgramError>(
                ProgramError::Anchor(ErrorCode::AccountNotSigner)),
        (spec_read_u64_arg(args) is Ok && accounts.len() >= 2
            && spec_check_owner(accounts[0], spec_vault_program_id()) is Ok
            && spec_load_vault_data(accounts[0].data@) is Ok && accounts[1].is_signer
            && accounts[0].is_writable
            && !(pda_search(spec_authority_seeds(), spec_proxy_program_id()) matches Some((k, _))
                && k == accounts[1].key@))
            ==> spec_process_update_contents(accounts, args) == Err::<Seq<u8>, ProgramError>(
                ProgramError::Anchor(ErrorCode::ConstraintSeeds)),
{
}

/// On accepted accounts (an existing, writable vault and its signing
/// authority), `update_contents` with argument `v` succeeds and the vault then
/// loads holding `v`.
pub proof fn law_update_contents_stores(accounts: Seq<AccountView>, v: u64)
    requires
        spec_access_vault_accounts(accounts) is Ok,
    ensures
        spec_process_update_contents(accounts, spec_u64_to_le_bytes(v)) matches Ok(d)
            && spec_load_vault_data(d) == Ok::<VaultData, ErrorCode>(VaultData { data_value: v }),
{
    vstd::bytes::lemma_auto_spec_u64_to_from_le_bytes();
    assert(spec_u64_to_le_bytes(v).subrange(0, 8) =~= spec_u64_to_le_bytes(v));
    let rest = accounts[0].data@.subrange(16, accounts[0].data@.len() as int);
    law_vault_load_after_store(VaultData { data_value: v }, rest);
}

/// A vault created by `initialize` loads holding zero.
pub proof fn law_initialized_vault_is_zero(accounts: Seq<AccountView>, rent_minimum: u64)
    requires
        spec_process_initialize(accounts, rent_minimum) matches Ok(p) && p.after is Ok,
    ensures
        spec_process_initialize(accounts, rent_minimum) matches Ok(p)
            && p.after matches Ok(d) && spec_load_vault_data(d) == Ok::<VaultData, ErrorCode>(VaultData { data_value: 0 }),
{
    law_vault_load_after_store(VaultData { data_value: 0 }, Seq::<u8>::empty());
    assert(account_bytes(spec_vault_data_discriminator(), 0) + Seq::<u8>::empty() =~= account_bytes(spec_vault_data_discriminator(), 0));
}


/// Which instruction the program runs for `data`, once it has checked that it
/// runs under its declared address; data that selects none of its
/// instructions goes to the framework's answer (`spec_framework_dispatch`).
pub open spec fn spec_entry(program_id: Seq<u8>, data: Seq<u8>) -> Result<Dispatch<VaultInstruction>, ErrorCode> {
    if program_id != spec_vault_program_id() {
        Err(ErrorCode::DeclaredProgramIdMismatch)
    } else {
        match spec_decode_vault_instruction(data) {
            Ok(Some(ix)) => Ok(Dispatch::Program(ix)),
            Ok(None) => spec_framework_dispatch(data),
            Err(e) => Err(e),
        }
    }
}

pub fn entry(program_id: &Pubkey, data: &[u8]) -> (r: Result<Dispatch<VaultInstruction>, ErrorCode>)
    ensures
        r == spec_entry(program_id@, data@),
{
    let id = vault_program_id();
    check_declared_id(program_id, &id)?;
    match VaultInstruction::decode(data)? {
        Some(ix) => Ok(Dispatch::Program(ix)),
        None => framework_dispatch(data),
    }
}

/// `initialize` creates the vault (first account) paid by the user
/// (second), once the user has signed and the third account is the executable
/// system program. A vault without lamports is created by one
/// `CreateAccount` from the user, funded with exactly `rent_minimum` lamports,
/// 16 bytes, owned by the vault program. One that holds `l` lamports is
/// topped up by a `Transfer` of `rent_minimum - l` from the user (only where
/// it lacks them), then given 16 bytes and handed to the vault program; the
/// user itself is refused as the new account. The vault then holds its
/// discriminator and zero, exactly when it is writable and has signed and the
/// user is writable.
pub proof fn law_initialize_vault_creates_account(accounts: Seq<AccountView>, rent_minimum: u64)
    requires
        accounts.len() >= 3,
        accounts[1].is_signer,
        accounts[2].key@ == spec_system_program_id(),
        accounts[2].executable,
    ensures
        accounts[0].lamports == 0 ==> (spec_process_initialize(accounts, rent_minimum) matches Ok(p) && p.invocations == seq![
            InstructionSpec {
                program_id: spec_system_program_id(),
                accounts: seq![meta(accounts[1].key@, true, true), meta(accounts[0].key@, true, true)],
                data: seq![0u8, 0, 0, 0] + spec_u64_to_le_bytes(rent_minimum) + spec_u64_to_le_bytes(16)
                    + spec_vault_program_id(),
            },
        ]),
        accounts[0].lamports > 0 && accounts[0].key@ != accounts[1].key@ ==> (spec_process_initialize(accounts, rent_minimum) matches Ok(p)
            && p.invocations.len() >= 2
            && p.invocations[p.invocations.len() - 2] == (InstructionSpec {
                program_id: spec_system_program_id(),
                accounts: seq![meta(accounts[0].key@, true, true)],
                data: seq![8u8, 0, 0, 0] + spec_u64_to_le_bytes(16),
            })
            && p.invocations[p.invocations.len() - 1] == (InstructionSpec {
                program_id: spec_system_program_id(),
                accounts: seq![meta(accounts[0].key@, true, true)],
                data: seq![1u8, 0, 0, 0] + spec_vault_program_id(),
            })
            && (rent_minimum > accounts[0].lamports ==> p.invocations.len() == 3 && p.invocations[0] == (InstructionSpec {
                program_id: spec_system_program_id(),
                accounts: seq![meta(accounts[1].key@, true, true), meta(accounts[0].key@, false, true)],
                data: seq![2u8, 0, 0, 0] + spec_u64_to_le_bytes((rent_minimum - accounts[0].lamports) as u64),
            }))
            && (rent_minimum <= accounts[0].lamports ==> p.invocations.len() == 2)),
        accounts[0].lamports > 0 && accounts[0].key@ == accounts[1].key@ ==> spec_process_initialize(accounts, rent_minimum)
            == Err::<InitPlanSpec, ProgramError>(ProgramError::Anchor(ErrorCode::TryingToInitPayerAsProgramAccount)),
        spec_process_initialize(accounts, rent_minimum) matches Ok(p) ==> ((p.after is Ok) == (accounts[0].is_writable
            && accounts[0].is_signer && accounts[1].is_writable)),
        spec_process_initialize(accounts, rent_minimum) matches Ok(p) ==> (p.after is Ok ==> (p.after == Ok::<Seq<u8>, ProgramError>(
            spec_vault_data_discriminator() + spec_u64_to_le_bytes(0)) && spec_load_vault_data(p.after->Ok_0) == Ok::<VaultData, ErrorCode>(VaultData { data_value: 0 }))),
{
    crate::init::law_init_plan(accounts, 1, rent_minimum, spec_vault_program_id(), spec_vault_data_discriminator(), 0);
    law_vault_load_after_store(VaultData { data_value: 0 }, Seq::<u8>::empty());
    assert(account_bytes(spec_vault_data_discriminator(), 0) + Seq::<u8>::empty() =~= spec_vault_data_discriminator() + spec_u64_to_le_bytes(0));
}

/// `update_contents` overwrites the value of an existing vault with the eight
/// argument bytes and nothing else. It is accepted exactly when the argument
/// has its eight bytes, the first account is writable, owned by the vault
/// program and holds at least 16 bytes that begin with the vault's
/// discriminator, and the second has signed and is the address found for the
/// seed `controller_auth` under the proxy's id; the vault then keeps its first
/// eight bytes and everything after the sixteenth, and bytes 8 to 16 become
/// the argument's.
pub proof fn law_update_contents_request(accounts: Seq<AccountView>, args: Seq<u8>)
    ensures
        (spec_process_update_contents(accounts, args) is Ok) == (args.len() >= 8 && accounts.len() >= 2
            && accounts[0].owner@ == spec_vault_program_id() && accounts[0].is_writable
            && accounts[0].data@.len() >= 16
            && accounts[0].data@.subrange(0, 8) == seq![130u8, 212, 101, 247, 146, 181, 149, 100]
            && accounts[1].is_signer
            && (pda_search(spec_authority_seeds(), spec_proxy_program_id()) matches Some((k, _))
                && k == accounts[1].key@)),
        spec_process_update_contents(accounts, args) is Ok ==> spec_process_update_contents(accounts, args)->Ok_0
            == accounts[0].data@.subrange(0, 8) + args.subrange(0, 8)
                + accounts[0].data@.subrange(16, accounts[0].data@.len() as int),
{
    assert(spec_vault_program_id()[0] != spec_system_program_id()[0]);
    if args.len() >= 8 {
        crate::codec::lemma_u64_arg_bytes(args);
    }
}

} // verus!
