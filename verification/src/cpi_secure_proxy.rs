//! The proxy program: owns the address derived from the seed
//! `controller_auth`, and signs with it a call of the vault's
//! `update_contents`, so that the vault accepts the change.
use vstd::prelude::*;
use vstd::bytes::spec_u64_to_le_bytes;
use crate::account::{
    Dispatch, framework_dispatch, spec_framework_dispatch,
    check_declared_id,
    AccountMeta, AccountView, Instruction, InstructionSpec, check_mut, check_program, meta,
    spec_check_owner, spec_check_program,
};
use crate::codec::{has_prefix, starts_with, instruction_data_u64, read_u64_arg, spec_read_u64_arg};
use crate::cpi_secure_vault::{
    VaultData, VaultInstruction, law_update_contents_stores, law_vault_instruction_roundtrip,
    spec_decode_vault_instruction, spec_load_vault_data, spec_process_update_contents,
    spec_update_contents_discriminator, spec_vault_program_id, update_contents_discriminator,
    vault_program_id,
};
use crate::error::{ErrorCode, ProgramError};
use crate::pubkey::{Pubkey, find_program_address, pda_search, program_address};

verus! {

/// `BfZQac4ivDdAC9jhvWFV5sdaioSRpmKK4U3ND6nCLYkG`
pub open spec fn spec_proxy_program_id() -> Seq<u8> {
    seq![
        158u8, 117, 149, 11, 37, 48, 78, 128, 229, 52, 171, 112, 171, 37, 255, 43,
        116, 194, 166, 235, 96, 164, 113, 243, 42, 162, 76, 45, 182, 251, 153, 49,
    ]
}

pub fn proxy_program_id() -> (k: Pubkey)
    ensures
        k@ == spec_proxy_program_id(),
{
    let k = Pubkey {
        bytes: [
            158, 117, 149, 11, 37, 48, 78, 128, 229, 52, 171, 112, 171, 37, 255, 43,
            116, 194, 166, 235, 96, 164, 113, 243, 42, 162, 76, 45, 182, 251, 153, 49,
        ],
    };
    assert(k@ =~= spec_proxy_program_id());
    k
}

/// The bytes of `controller_auth`, the seed of the proxy's authority.
pub open spec fn spec_controller_auth_seed() -> Seq<u8> {
    seq![99u8, 111, 110, 116, 114, 111, 108, 108, 101, 114, 95, 97, 117, 116, 104]
}

pub fn controller_auth_seed() -> (s: Vec<u8>)
    ensures
        s@ == spec_controller_auth_seed(),
{
    let s = vec![99u8, 111, 110, 116, 114, 111, 108, 108, 101, 114, 95, 97, 117, 116, 104];
    assert(s@ =~= spec_controller_auth_seed());
    s
}

/// The seeds of the authority, without the bump.
pub open spec fn spec_authority_seeds() -> Seq<Seq<u8>> {
    seq![spec_controller_auth_seed()]
}

/// The seeds of the authority, without the bump, as bytes.
pub fn authority_seeds() -> (s: Vec<Vec<u8>>)
    ensures
        s.deep_view() == spec_authority_seeds(),
{
    let seed = controller_auth_seed();
    assert(seed.deep_view() =~= seed@);
    let seeds = vec![seed];
    assert(seeds.deep_view() =~= spec_authority_seeds());
    seeds
}

/// The seeds that sign for the authority: `controller_auth`, then the bump.
pub open spec fn spec_signer_seeds(bump: u8) -> Seq<Seq<u8>> {
    seq![spec_controller_auth_seed(), seq![bump]]
}

/// The `update_contents` invocation of the vault program `program`, writing
/// `vault` with `authority` as the signing authority.
pub open spec fn spec_update_contents_invocation(program: Seq<u8>, vault: Seq<u8>, authority: Seq<u8>, value: u64) -> InstructionSpec {
    InstructionSpec {
        program_id: program,
        accounts: seq![meta(vault, false, true), meta(authority, true, false)],
        data: spec_update_contents_discriminator() + spec_u64_to_le_bytes(value),
    }
}

/// An invocation together with the seeds the calling program signs it with.
pub struct SignedInstruction {
    pub instruction: Instruction,
    pub signer_seeds: Vec<Vec<u8>>,
}

/// The accounts of `execute_proxy_update`, once checked: the vault (first),
/// the proxy's authority (second) with the bump found for it, and the vault
/// program (third).
pub struct ProxyUpdate {
    pub vault: Pubkey,
    pub pda_authority: Pubkey,
    pub pda_authority_bump: u8,
    pub vault_program: Pubkey,
}

/// Checking the accounts of `execute_proxy_update`: three accounts, the third
/// the vault program, the first writable, the second the address derived
/// from `controller_auth` for the proxy. Gives the bump of that address.
pub open spec fn spec_proxy_update_accounts(accounts: Seq<AccountView>) -> Result<u8, ErrorCode> {
    if accounts.len() < 3 {
        Err(ErrorCode::AccountNotEnoughKeys)
    } else if spec_check_program(accounts[2], spec_vault_program_id()) is Err {
        Err(spec_check_program(accounts[2], spec_vault_program_id())->Err_0)
    } else if !accounts[0].is_writable {
        Err(ErrorCode::ConstraintMut)
    } else {
        match pda_search(spec_authority_seeds(), spec_proxy_program_id()) {
            None => Err(ErrorCode::ConstraintSeeds),
            Some((k, b)) => if k != accounts[1].key@ {
                Err(ErrorCode::ConstraintSeeds)
            } else {
                Ok(b)
            },
        }
    }
}

impl ProxyUpdate {
    pub fn try_accounts(accounts: &Vec<AccountView>) -> (r: Result<ProxyUpdate, ErrorCode>)
        ensures
            match spec_proxy_update_accounts(accounts@) {
                Ok(b) => r matches Ok(x) && x.vault@ == accounts@[0].key@
                    && x.pda_authority@ == accounts@[1].key@ && x.vault_program@ == accounts@[2].key@
                    && x.pda_authority_bump == b
                    && program_address(spec_signer_seeds(b), spec_proxy_program_id()) == Some(accounts@[1].key@),
                Err(e) => r matches Err(e2) && e2 == e,
            },
    {
        if accounts.len() < 3 {
            return Err(ErrorCode::AccountNotEnoughKeys);
        }
        let vault_id = vault_program_id();
        check_program(&accounts[2], &vault_id)?;
        check_mut(&accounts[0])?;
        let seeds = authority_seeds();
        let proxy_id = proxy_program_id();
        match find_program_address(&seeds, &proxy_id) {
            None => Err(ErrorCode::ConstraintSeeds),
            Some((k, b)) => {
                assert(seeds.deep_view().push(seq![b]) =~= spec_signer_seeds(b));
                if !k.key_eq(&accounts[1].key) {
                    Err(ErrorCode::ConstraintSeeds)
                } else {
                    Ok(ProxyUpdate {
                        vault: accounts[0].key.copy(),
                        pda_authority: accounts[1].key.copy(),
                        pda_authority_bump: b,
                        vault_program: accounts[2].key.copy(),
                    })
                }
            },
        }
    }
}

/// Builds the vault's `update_contents` call carrying `value`, signed by the
/// proxy's authority: the invocation the proxy makes.
pub fn execute_proxy_update(accounts: &ProxyUpdate, value: u64) -> (s: SignedInstruction)
    ensures
        s.instruction@ == spec_update_contents_invocation(
            accounts.vault_program@,
            accounts.vault@,
            accounts.pda_authority@,
            value,
        ),
        s.signer_seeds.deep_view() == spec_signer_seeds(accounts.pda_authority_bump),
{
    let seed = controller_auth_seed();
    let bump_seed = vec![accounts.pda_authority_bump];
    assert(seed.deep_view() =~= seed@);
    assert(bump_seed.deep_view() =~= seq![accounts.pda_authority_bump]);
    let seeds: Vec<Vec<u8>> = vec![seed, bump_seed];
    assert(seeds.deep_view() =~= spec_signer_seeds(accounts.pda_authority_bump));
    let disc = update_contents_discriminator();
    let data = instruction_data_u64(&disc, value);
    let mut metas: Vec<AccountMeta> = Vec::new();
    metas.push(AccountMeta::new(&accounts.vault, false));
    metas.push(AccountMeta::new_readonly(&accounts.pda_authority, true));
    let ix = Instruction { program_id: accounts.vault_program.copy(), accounts: metas, data };
    assert(ix@.accounts =~= seq![meta(accounts.vault@, false, true), meta(accounts.pda_authority@, true, false)]);
    SignedInstruction { instruction: ix, signer_seeds: seeds }
}

/// What `execute_proxy_update` does, given the bytes after the discriminator:
/// the signed invocation of the vault it makes (the invocation, the bump of
/// the signer seeds), or why it fails.
pub open spec fn spec_process_proxy_update(accounts: Seq<AccountView>, args: Seq<u8>) -> Result<(InstructionSpec, u8), ProgramError> {
    match spec_read_u64_arg(args) {
        Err(e) => Err(ProgramError::Anchor(e)),
        Ok(v) => match spec_proxy_update_accounts(accounts) {
            Err(e) => Err(ProgramError::Anchor(e)),
            Ok(b) => Ok((spec_update_contents_invocation(accounts[2].key@, accounts[0].key@, accounts[1].key@, v), b)),
        },
    }
}

/// Runs `execute_proxy_update`: reads the argument, checks the accounts and
/// the authority's derivation, and returns the signed invocation to make.
pub fn process_execute_proxy_update(accounts: &Vec<AccountView>, args: &[u8]) -> (r: Result<SignedInstruction, ProgramError>)
    ensures
        match spec_process_proxy_update(accounts@, args@) {
            Ok((i, b)) => r matches Ok(s) && s.instruction@ == i && s.signer_seeds.deep_view() == spec_signer_seeds(b)
                && program_address(spec_signer_seeds(b), spec_proxy_program_id()) == Some(accounts@[1].key@),
            Err(e) => r matches Err(e2) && e2 == e,
        },
{
    let value = match read_u64_arg(args) {
        Ok(v) => v,
        Err(e) => return Err(ProgramError::Anchor(e)),
    };
    let checked = match ProxyUpdate::try_accounts(accounts) {
        Ok(c) => c,
        Err(e) => return Err(ProgramError::Anchor(e)),
    };
    Ok(execute_proxy_update(&checked, value))
}


/// What the proxy asks, the vault does: when `execute_proxy_update` accepts
/// its accounts and argument `v`, it invokes the vault program on the vault
/// it was given (writable) with its authority as a signer, with data the
/// vault reads as `update_contents(v)`. Handed an existing, writable vault
/// with that key and the authority signed for by the proxy's seeds, the vault
/// accepts the call and ends holding `v`.
pub proof fn law_proxy_update_reaches_vault(proxy_accounts: Seq<AccountView>, args: Seq<u8>, vault_accounts: Seq<AccountView>)
    requires
        spec_process_proxy_update(proxy_accounts, args) is Ok,
        vault_accounts.len() >= 2,
        vault_accounts[0].key@ == proxy_accounts[0].key@,
        vault_accounts[1].key@ == proxy_accounts[1].key@,
        vault_accounts[1].is_signer,
        vault_accounts[0].is_writable,
        spec_check_owner(vault_accounts[0], spec_vault_program_id()) is Ok,
        spec_load_vault_data(vault_accounts[0].data@) is Ok,
    ensures
        ({
            let i = spec_process_proxy_update(proxy_accounts, args)->Ok_0.0;
            let v = spec_read_u64_arg(args)->Ok_0;
            &&& i.program_id == spec_vault_program_id()
            &&& i.accounts == seq![meta(vault_accounts[0].key@, false, true), meta(vault_accounts[1].key@, true, false)]
            &&& spec_decode_vault_instruction(i.data) == Ok::<Option<VaultInstruction>, ErrorCode>(
                Some(VaultInstruction::UpdateContents { new_value: v }))
            &&& spec_process_update_contents(vault_accounts, i.data.subrange(8, i.data.len() as int)) matches Ok(d)
            &&& spec_load_vault_data(d) == Ok::<VaultData, ErrorCode>(VaultData { data_value: v })
        }),
{
    let i = spec_process_proxy_update(proxy_accounts, args)->Ok_0.0;
    let v = spec_read_u64_arg(args)->Ok_0;
    law_vault_instruction_roundtrip(VaultInstruction::UpdateContents { new_value: v });
    assert(i.data.subrange(8, i.data.len() as int) =~= spec_u64_to_le_bytes(v));
    law_update_contents_stores(vault_accounts, v);
}


/// First eight bytes of sha256("global:execute_proxy_update").
pub open spec fn spec_execute_proxy_update_discriminator() -> Seq<u8> {
    seq![202u8, 130, 26, 187, 185, 49, 111, 135]
}

/// The proxy program's instruction.
#[derive(Debug, Clone, Copy, PartialEq, Eq, Structural)]
pub enum ProxyInstruction {
    ExecuteProxyUpdate { value: u64 },
}

pub open spec fn spec_cpi_secure_proxy_instruction_data(ix: ProxyInstruction) -> Seq<u8> {
    match ix {
        ProxyInstruction::ExecuteProxyUpdate { value } => spec_execute_proxy_update_discriminator() + spec_u64_to_le_bytes(value),
    }
}

/// Which instruction `data` selects and with which argument; `Ok(None)` for
/// data that selects none of this program's instructions.
pub open spec fn spec_decode_cpi_secure_proxy_instruction(data: Seq<u8>) -> Result<Option<ProxyInstruction>, ErrorCode> {
    if starts_with(data, spec_execute_proxy_update_discriminator()) {
        match spec_read_u64_arg(data.subrange(8, data.len() as int)) {
            Ok(v) => Ok(Some(ProxyInstruction::ExecuteProxyUpdate { value: v })),
            Err(e) => Err(e),
        }
    } else {
        Ok(None)
    }
}

impl ProxyInstruction {
    pub fn data(&self) -> (d: Vec<u8>)
        ensures
            d@ == spec_cpi_secure_proxy_instruction_data(*self),
    {
        match self {
            ProxyInstruction::ExecuteProxyUpdate { value } => {
                let disc: [u8; 8] = [202, 130, 26, 187, 185, 49, 111, 135];
                assert(disc@ =~= spec_execute_proxy_update_discriminator());
                instruction_data_u64(&disc, *value)
            },
        }
    }

    pub fn decode(data: &[u8]) -> (r: Result<Option<ProxyInstruction>, ErrorCode>)
        ensures
            r == spec_decode_cpi_secure_proxy_instruction(data@),
    {
        let disc: [u8; 8] = [202, 130, 26, 187, 185, 49, 111, 135];
        assert(disc@ =~= spec_execute_proxy_update_discriminator());
        if has_prefix(data, &disc) {
            let args = vstd::slice::slice_subrange(data, 8, data.len());
            let v = read_u64_arg(args)?;
            Ok(Some(ProxyInstruction::ExecuteProxyUpdate { value: v }))
        } else {
            Ok(None)
        }
    }
}

/// The data of the instruction selects it, with its argument.
pub proof fn law_cpi_secure_proxy_instruction_roundtrip(ix: ProxyInstruction)
    ensures
        spec_decode_cpi_secure_proxy_instruction(spec_cpi_secure_proxy_instruction_data(ix)) == Ok::<Option<ProxyInstruction>, ErrorCode>(Some(ix)),
{
    vstd::bytes::lemma_auto_spec_u64_to_from_le_bytes();
    let d = spec_cpi_secure_proxy_instruction_data(ix);
    match ix {
        ProxyInstruction::ExecuteProxyUpdate { value } => {
            assert(d.subrange(0, 8) =~= spec_execute_proxy_update_discriminator());
            assert(d.subrange(8, d.len() as int).subrange(0, 8) =~= spec_u64_to_le_bytes(value));
        },
    }
}

/// Which instruction the program runs for `data`, once it has checked that it
/// runs under its declared address; data that selects none of its
/// instructions goes to the framework's answer (`spec_framework_dispatch`).
pub open spec fn spec_entry(program_id: Seq<u8>, data: Seq<u8>) -> Result<Dispatch<ProxyInstruction>, ErrorCode> {
    if program_id != spec_proxy_program_id() {
        Err(ErrorCode::DeclaredProgramIdMismatch)
    } else {
        match spec_decode_cpi_secure_proxy_instruction(data) {
            Ok(Some(ix)) => Ok(Dispatch::Program(ix)),
            Ok(None) => spec_framework_dispatch(data),
            Err(e) => Err(e),
        }
    }
}

pub fn entry(program_id: &Pubkey, data: &[u8]) -> (r: Result<Dispatch<ProxyInstruction>, ErrorCode>)
    ensures
        r == spec_entry(program_id@, data@),
{
    let id = proxy_program_id();
    check_declared_id(program_id, &id)?;
    match ProxyInstruction::decode(data)? {
        Some(ix) => Ok(Dispatch::Program(ix)),
        None => framework_dispatch(data),
    }
}


/// The proxy signs only for its own authority: whenever it accepts its
/// accounts, the second one is the address found for the seed
/// `controller_auth` under the proxy's program id, and the bump it signs with
/// is the one found with it.
pub proof fn law_proxy_authority_is_pda(accounts: Seq<AccountView>, args: Seq<u8>)
    requires
        spec_process_proxy_update(accounts, args) is Ok,
    ensures
        pda_search(spec_authority_seeds(), spec_proxy_program_id()) == Some(
            (accounts[1].key@, spec_process_proxy_update(accounts, args)->Ok_0.1),
        ),
{
}

/// The proxy needs nothing of its authority account but its address: whenever
/// the third account is the executable vault program, the first is writable,
/// the second is the address found (with bump `b`) for the seed
/// `controller_auth` under the proxy's id, and the argument has its eight
/// bytes, the proxy accepts, whatever the lamports, owner, data or flags of
/// the authority account. It then asks the vault program to run
/// `update_contents` with exactly those eight bytes, on the first account
/// (writable) with the authority as signer, and signs with the seeds
/// `controller_auth` and the bump `b`.
pub proof fn law_proxy_accepts_its_authority(accounts: Seq<AccountView>, args: Seq<u8>, b: u8)
    requires
        accounts.len() >= 3,
        accounts[2].key@ == spec_vault_program_id(),
        accounts[2].executable,
        accounts[0].is_writable,
        pda_search(spec_authority_seeds(), spec_proxy_program_id()) == Some((accounts[1].key@, b)),
        args.len() >= 8,
    ensures
        spec_process_proxy_update(accounts, args) == Ok::<(InstructionSpec, u8), ProgramError>((
            (InstructionSpec {
                program_id: spec_vault_program_id(),
                accounts: seq![meta(accounts[0].key@, false, true), meta(accounts[1].key@, true, false)],
                data: seq![203u8, 26, 249, 5, 104, 162, 236, 11] + args.subrange(0, 8),
            }),
            b,
        )),
        spec_signer_seeds(b) == seq![
            seq![99u8, 111, 110, 116, 114, 111, 108, 108, 101, 114, 95, 97, 117, 116, 104],
            seq![b],
        ],
{
    crate::codec::lemma_u64_arg_bytes(args);
    let i = spec_process_proxy_update(accounts, args)->Ok_0.0;
    assert(i.data =~= seq![203u8, 26, 249, 5, 104, 162, 236, 11] + args.subrange(0, 8));
}

/// The proxy refuses exactly what its accounts do not allow: it accepts
/// precisely when the argument has its eight bytes, three accounts are
/// passed, the third is the executable vault program, the first is writable,
/// and the second is the address found for the seed `controller_auth` under
/// the proxy's id.
pub proof fn law_proxy_update_accepted_exactly(accounts: Seq<AccountView>, args: Seq<u8>)
    ensures
        (spec_process_proxy_update(accounts, args) is Ok) == (args.len() >= 8 && accounts.len() >= 3
            && accounts[2].key@ == spec_vault_program_id() && accounts[2].executable
            && accounts[0].is_writable
            && (pda_search(spec_authority_seeds(), spec_proxy_program_id()) matches Some((k, _))
                && k == accounts[1].key@)),
{
}

} // verus!
