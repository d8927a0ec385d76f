//! The token example program: creates a mint by hand (a system-program
//! account creation followed by the token program's mint initialization),
//! mints tokens, and transfers them, each through the SPL token program.
use vstd::prelude::*;
use vstd::bytes::spec_u64_to_le_bytes;
use anchor_lang::solana_program::sysvar::Sysvar;
use anchor_lang::prelude::Pubkey as SolanaPubkey;
use crate::account::{
    Dispatch, framework_dispatch, spec_framework_dispatch,
    check_declared_id,
    AccountMeta, AccountView, Instruction, InstructionSpec, check_mut, check_program, check_signer,
    meta, spec_check_program,
};
use crate::codec::{has_prefix, starts_with, read_u64_arg, read_u8_arg, spec_read_u64_arg, spec_read_u8_arg};
use crate::error::{ErrorCode, ProgramError};
use crate::system::{spec_create_account_instruction, system_create_account};
use crate::pubkey::{
    Pubkey, spec_rent_sysvar_id, spec_system_program_id, spec_token_program_id, system_program_id,
    token_program_id,
};

verus! {

/// `8TcA7B4GMhsu6GNgUChTLrSp59ufp68Seee1XToY6wfD`
pub open spec fn spec_token_example_program_id() -> Seq<u8> {
    seq![
        110u8, 210, 169, 99, 146, 40, 49, 59, 183, 172, 134, 69, 2, 236, 74, 87,
        54, 139, 193, 42, 128, 48, 26, 238, 39, 42, 244, 12, 20, 85, 244, 56,
    ]
}

/// Bytes of a mint account of the token program.
pub const MINT_SPACE: u64 = 82;

/// The token program's `InitializeMint` instruction.
pub open spec fn spec_initialize_mint_instruction(
    mint: Seq<u8>,
    mint_authority: Seq<u8>,
    freeze_authority: Option<Seq<u8>>,
    decimals: u8,
) -> InstructionSpec {
    InstructionSpec {
        program_id: spec_token_program_id(),
        accounts: seq![meta(mint, false, true), meta(spec_rent_sysvar_id(), false, false)],
        data: seq![0u8, decimals] + mint_authority + match freeze_authority {
            Some(k) => seq![1u8] + k,
            None => seq![0u8],
        },
    }
}

/// The token program's `MintTo` instruction, signed by the mint authority alone.
pub open spec fn spec_mint_to_instruction(mint: Seq<u8>, account: Seq<u8>, owner: Seq<u8>, amount: u64) -> InstructionSpec {
    InstructionSpec {
        program_id: spec_token_program_id(),
        accounts: seq![meta(mint, false, true), meta(account, false, true), meta(owner, true, false)],
        data: seq![7u8] + spec_u64_to_le_bytes(amount),
    }
}

/// The token program's `Transfer` instruction, signed by the owner alone.
pub open spec fn spec_transfer_instruction(source: Seq<u8>, destination: Seq<u8>, authority: Seq<u8>, amount: u64) -> InstructionSpec {
    InstructionSpec {
        program_id: spec_token_program_id(),
        accounts: seq![meta(source, false, true), meta(destination, false, true), meta(authority, true, false)],
        data: seq![3u8] + spec_u64_to_le_bytes(amount),
    }
}

/// Calls `spl_token::instruction::initialize_mint` (through `anchor_spl`).
/// Claimed: it refuses any program id but the token program's
/// (`IncorrectProgramId`); otherwise it lists the mint (writable) and the rent
/// sysvar and carries tag 0, the decimals, the mint authority and the
/// optional freeze authority (tag 1 and the key, or tag 0).
#[verifier::external_body]
fn token_initialize_mint(
    token_program_id: &Pubkey,
    mint: &Pubkey,
    mint_authority: &Pubkey,
    freeze_authority: Option<&Pubkey>,
    decimals: u8,
) -> (r: Result<Instruction, ProgramError>)
    ensures
        match r {
            Err(e) => token_program_id@ != spec_token_program_id() && e == ProgramError::IncorrectProgramId,
            Ok(ix) => token_program_id@ == spec_token_program_id() && ix@ == spec_initialize_mint_instruction(
            mint@,
            mint_authority@,
            match freeze_authority { Some(k) => Some(k@), None => None },
            decimals,
            ),
        },
{
    let freeze = freeze_authority.map(|k| SolanaPubkey::new_from_array(k.bytes));
    let ix = anchor_spl::token::spl_token::instruction::initialize_mint(
        &SolanaPubkey::new_from_array(token_program_id.bytes),
        &SolanaPubkey::new_from_array(mint.bytes),
        &SolanaPubkey::new_from_array(mint_authority.bytes),
        freeze.as_ref(),
        decimals,
    ).map_err(|_| ProgramError::IncorrectProgramId)?;
    let accounts = ix.accounts.iter().map(|m| AccountMeta { pubkey: Pubkey { bytes: m.pubkey.to_bytes() }, is_signer: m.is_signer, is_writable: m.is_writable }).collect();
    Ok(Instruction { program_id: Pubkey { bytes: ix.program_id.to_bytes() }, accounts, data: ix.data })
}

/// Calls `spl_token::instruction::mint_to` with no multisignature signers
/// (as `anchor_spl::token::mint_to` does). Claimed: it refuses any program id
/// but the token program's; otherwise it lists the mint and the destination
/// (writable) and the owner (signer) and carries tag 7 and the amount.
#[verifier::external_body]
fn token_mint_to(token_program_id: &Pubkey, mint: &Pubkey, account: &Pubkey, owner: &Pubkey, amount: u64) -> (r: Result<Instruction, ProgramError>)
    ensures
        match r {
            Err(e) => token_program_id@ != spec_token_program_id() && e == ProgramError::IncorrectProgramId,
            Ok(ix) => token_program_id@ == spec_token_program_id() && ix@ == spec_mint_to_instruction(mint@, account@, owner@, amount),
        },
{
    let ix = anchor_spl::token::spl_token::instruction::mint_to(
        &SolanaPubkey::new_from_array(token_program_id.bytes),
        &SolanaPubkey::new_from_array(mint.bytes),
        &SolanaPubkey::new_from_array(account.bytes),
        &SolanaPubkey::new_from_array(owner.bytes),
        &[],
        amount,
    ).map_err(|_| ProgramError::IncorrectProgramId)?;
    let accounts = ix.accounts.iter().map(|m| AccountMeta { pubkey: Pubkey { bytes: m.pubkey.to_bytes() }, is_signer: m.is_signer, is_writable: m.is_writable }).collect();
    Ok(Instruction { program_id: Pubkey { bytes: ix.program_id.to_bytes() }, accounts, data: ix.data })
}

/// Calls `spl_token::instruction::transfer` with no multisignature signers
/// (as `anchor_spl::token::transfer` does). Claimed: it refuses any program id
/// but the token program's; otherwise it lists source and destination
/// (writable) and the authority (signer) and carries tag 3 and the amount.
#[verifier::external_body]
fn token_transfer(token_program_id: &Pubkey, source: &Pubkey, destination: &Pubkey, authority: &Pubkey, amount: u64) -> (r: Result<Instruction, ProgramError>)
    ensures
        match r {
            Err(e) => token_program_id@ != spec_token_program_id() && e == ProgramError::IncorrectProgramId,
            Ok(ix) => token_program_id@ == spec_token_program_id() && ix@ == spec_transfer_instruction(source@, destination@, authority@, amount),
        },
{
    let ix = anchor_spl::token::spl_token::instruction::transfer(
        &SolanaPubkey::new_from_array(token_program_id.bytes),
        &SolanaPubkey::new_from_array(source.bytes),
        &SolanaPubkey::new_from_array(destination.bytes),
        &SolanaPubkey::new_from_array(authority.bytes),
        &[],
        amount,
    ).map_err(|_| ProgramError::IncorrectProgramId)?;
    let accounts = ix.accounts.iter().map(|m| AccountMeta { pubkey: Pubkey { bytes: m.pubkey.to_bytes() }, is_signer: m.is_signer, is_writable: m.is_writable }).collect();
    Ok(Instruction { program_id: Pubkey { bytes: ix.program_id.to_bytes() }, accounts, data: ix.data })
}

/// Whether `<Rent as Sysvar>::from_account_info` accepts an account: its key
/// must be the rent sysvar's, and its data must hold the bincode encoding of
/// `Rent` (a `u64`, an `f64` and a `u8`: 17 bytes, more being allowed).
pub open spec fn rent_sysvar_loads(key: Seq<u8>, data: Seq<u8>) -> bool {
    key == spec_rent_sysvar_id() && data.len() >= 17
}

/// Calls `<Rent as Sysvar>::from_account_info`, which `Sysvar<'info, Rent>`
/// runs on its account. Claimed, from its source: it refuses every key but
/// the rent sysvar's, then decodes the data with bincode, which needs the 17
/// bytes of `Rent` and ignores any after them.
#[verifier::external_body]
fn rent_sysvar_accepts(key: &Pubkey, data: &Vec<u8>) -> (r: bool)
    ensures
        r == rent_sysvar_loads(key@, data@),
{
    let k = SolanaPubkey::new_from_array(key.bytes);
    let mut lamports: u64 = 0;
    let mut bytes = data.clone();
    let info = anchor_lang::prelude::AccountInfo::new(&k, false, false, &mut lamports, &mut bytes, &k, false, 0);
    anchor_lang::prelude::Rent::from_account_info(&info).is_ok()
}

/// `Sysvar<'info, Rent>`: the account must load as the rent sysvar.
pub fn check_rent_sysvar(acc: &AccountView) -> (r: Result<(), ErrorCode>)
    ensures
        r == (if rent_sysvar_loads(acc.key@, acc.data@) { Ok(()) } else { Err(ErrorCode::AccountSysvarMismatch) }),
{
    if rent_sysvar_accepts(&acc.key, &acc.data) {
        Ok(())
    } else {
        Err(ErrorCode::AccountSysvarMismatch)
    }
}

/// The accounts of `create_mint`, once checked: the new mint (first), the
/// payer (second), the mint authority (third), and the program that is to own
/// the mint (fifth); the fourth is the system program, the sixth the rent
/// sysvar.
pub struct CreateMint {
    pub mint: Pubkey,
    pub payer: Pubkey,
    pub authority: Pubkey,
    pub token_program: Pubkey,
}

/// Checking the accounts of `create_mint`, in the order they are taken:
/// mint and payer must have signed, the fourth account must be the system
/// program, the sixth the rent sysvar; then mint and payer must be writable.
pub open spec fn spec_create_mint_accounts(accounts: Seq<AccountView>) -> Result<(), ErrorCode> {
    if accounts.len() < 1 {
        Err(ErrorCode::AccountNotEnoughKeys)
    } else if !accounts[0].is_signer {
        Err(ErrorCode::AccountNotSigner)
    } else if accounts.len() < 2 {
        Err(ErrorCode::AccountNotEnoughKeys)
    } else if !accounts[1].is_signer {
        Err(ErrorCode::AccountNotSigner)
    } else if accounts.len() < 4 {
        Err(ErrorCode::AccountNotEnoughKeys)
    } else if spec_check_program(accounts[3], spec_system_program_id()) is Err {
        spec_check_program(accounts[3], spec_system_program_id())
    } else if accounts.len() < 6 {
        Err(ErrorCode::AccountNotEnoughKeys)
    } else if !rent_sysvar_loads(accounts[5].key@, accounts[5].data@) {
        Err(ErrorCode::AccountSysvarMismatch)
    } else if !accounts[0].is_writable || !accounts[1].is_writable {
        Err(ErrorCode::ConstraintMut)
    } else {
        Ok(())
    }
}

impl CreateMint {
    pub fn try_accounts(accounts: &Vec<AccountView>) -> (r: Result<CreateMint, ErrorCode>)
        ensures
            match spec_create_mint_accounts(accounts@) {
                Ok(_) => r matches Ok(x) && x.mint@ == accounts@[0].key@ && x.payer@ == accounts@[1].key@
                    && x.authority@ == accounts@[2].key@ && x.token_program@ == accounts@[4].key@,
                Err(e) => r matches Err(e2) && e2 == e,
            },
    {
        if accounts.len() < 1 {
            return Err(ErrorCode::AccountNotEnoughKeys);
        }
        check_signer(&accounts[0])?;
        if accounts.len() < 2 {
            return Err(ErrorCode::AccountNotEnoughKeys);
        }
        check_signer(&accounts[1])?;
        if accounts.len() < 4 {
            return Err(ErrorCode::AccountNotEnoughKeys);
        }
        let system = system_program_id();
        check_program(&accounts[3], &system)?;
        if accounts.len() < 6 {
            return Err(ErrorCode::AccountNotEnoughKeys);
        }
        check_rent_sysvar(&accounts[5])?;
        check_mut(&accounts[0])?;
        check_mut(&accounts[1])?;
        Ok(CreateMint {
            mint: accounts[0].key.copy(),
            payer: accounts[1].key.copy(),
            authority: accounts[2].key.copy(),
            token_program: accounts[4].key.copy(),
        })
    }
}

/// The invocations `create_mint` makes, in order: the system program creates
/// the mint account (`MINT_SPACE` bytes, `rent_lamports` lamports, owned by the
/// given token program), then the token program initializes it with the
/// authority as mint and freeze authority.
pub open spec fn spec_create_mint_invocations(
    mint: Seq<u8>,
    payer: Seq<u8>,
    authority: Seq<u8>,
    token_program: Seq<u8>,
    decimals: u8,
    rent_lamports: u64,
) -> Seq<InstructionSpec> {
    seq![
        spec_create_account_instruction(payer, mint, rent_lamports, MINT_SPACE, token_program),
        spec_initialize_mint_instruction(mint, authority, Some(authority), decimals),
    ]
}

/// Builds the two invocations that create and initialize a mint.
/// `rent_lamports` is the rent-exempt minimum for `MINT_SPACE` bytes, which
/// the caller reads from the rent sysvar.
pub fn create_mint(accounts: &CreateMint, decimals: u8, rent_lamports: u64) -> (r: Result<Vec<Instruction>, ProgramError>)
    ensures
        r matches Ok(ixs) && ixs@.map_values(|ix: Instruction| ix@) == spec_create_mint_invocations(
            accounts.mint@,
            accounts.payer@,
            accounts.authority@,
            accounts.token_program@,
            decimals,
            rent_lamports,
        ),
{
    let create = system_create_account(&accounts.payer, &accounts.mint, rent_lamports, MINT_SPACE, &accounts.token_program);
    let token = token_program_id();
    let init = token_initialize_mint(&token, &accounts.mint, &accounts.authority, Some(&accounts.authority), decimals)?;
    let mut ixs: Vec<Instruction> = Vec::new();
    ixs.push(create);
    ixs.push(init);
    assert(ixs@.map_values(|ix: Instruction| ix@) =~= spec_create_mint_invocations(
        accounts.mint@,
        accounts.payer@,
        accounts.authority@,
        accounts.token_program@,
        decimals,
        rent_lamports,
    ));
    Ok(ixs)
}

/// What `create_mint` does, given the bytes after the discriminator: the
/// invocations it makes, or why it fails.
pub open spec fn spec_process_create_mint(accounts: Seq<AccountView>, args: Seq<u8>, rent_lamports: u64) -> Result<Seq<InstructionSpec>, ProgramError> {
    match spec_read_u8_arg(args) {
        Err(e) => Err(ProgramError::Anchor(e)),
        Ok(d) => match spec_create_mint_accounts(accounts) {
            Err(e) => Err(ProgramError::Anchor(e)),
            Ok(_) => Ok(spec_create_mint_invocations(
                accounts[0].key@,
                accounts[1].key@,
                accounts[2].key@,
                accounts[4].key@,
                d,
                rent_lamports,
            )),
        },
    }
}

/// Runs `create_mint`: reads the decimals, checks the accounts, and returns
/// the invocations to make.
pub fn process_create_mint(accounts: &Vec<AccountView>, args: &[u8], rent_lamports: u64) -> (r: Result<Vec<Instruction>, ProgramError>)
    ensures
        match spec_process_create_mint(accounts@, args@, rent_lamports) {
            Ok(s) => r matches Ok(ixs) && ixs@.map_values(|ix: Instruction| ix@) == s,
            Err(e) => r matches Err(e2) && e2 == e,
        },
{
    let decimals = match read_u8_arg(args) {
        Ok(d) => d,
        Err(e) => return Err(ProgramError::Anchor(e)),
    };
    let checked = match CreateMint::try_accounts(accounts) {
        Ok(c) => c,
        Err(e) => return Err(ProgramError::Anchor(e)),
    };
    create_mint(&checked, decimals, rent_lamports)
}

/// The accounts of `mint_token` (and, with other names, of `transfer_token`),
/// once checked: two writable accounts, then the signing authority.
pub struct MintToken {
    pub mint: Pubkey,
    pub destination: Pubkey,
    pub authority: Pubkey,
}

/// The accounts of `transfer_token`, once checked.
pub struct TransferToken {
    pub from: Pubkey,
    pub to: Pubkey,
    pub authority: Pubkey,
}

/// Checking the accounts of `mint_token` and of `transfer_token`, which
/// declare the same shape: four accounts, the third must have signed, then
/// the first two must be writable.
pub open spec fn spec_token_call_accounts(accounts: Seq<AccountView>) -> Result<(), ErrorCode> {
    if accounts.len() < 3 {
        Err(ErrorCode::AccountNotEnoughKeys)
    } else if !accounts[2].is_signer {
        Err(ErrorCode::AccountNotSigner)
    } else if accounts.len() < 4 {
        Err(ErrorCode::AccountNotEnoughKeys)
    } else if !accounts[0].is_writable || !accounts[1].is_writable {
        Err(ErrorCode::ConstraintMut)
    } else {
        Ok(())
    }
}

fn check_token_call_accounts(accounts: &Vec<AccountView>) -> (r: Result<(), ErrorCode>)
    ensures
        r == spec_token_call_accounts(accounts@),
{
    if accounts.len() < 3 {
        return Err(ErrorCode::AccountNotEnoughKeys);
    }
    check_signer(&accounts[2])?;
    if accounts.len() < 4 {
        return Err(ErrorCode::AccountNotEnoughKeys);
    }
    check_mut(&accounts[0])?;
    check_mut(&accounts[1])?;
    Ok(())
}

impl MintToken {
    pub fn try_accounts(accounts: &Vec<AccountView>) -> (r: Result<MintToken, ErrorCode>)
        ensures
            match spec_token_call_accounts(accounts@) {
                Ok(_) => r matches Ok(x) && x.mint@ == accounts@[0].key@ && x.destination@ == accounts@[1].key@
                    && x.authority@ == accounts@[2].key@,
                Err(e) => r matches Err(e2) && e2 == e,
            },
    {
        check_token_call_accounts(accounts)?;
        Ok(MintToken {
            mint: accounts[0].key.copy(),
            destination: accounts[1].key.copy(),
            authority: accounts[2].key.copy(),
        })
    }
}

impl TransferToken {
    pub fn try_accounts(accounts: &Vec<AccountView>) -> (r: Result<TransferToken, ErrorCode>)
        ensures
            match spec_token_call_accounts(accounts@) {
                Ok(_) => r matches Ok(x) && x.from@ == accounts@[0].key@ && x.to@ == accounts@[1].key@
                    && x.authority@ == accounts@[2].key@,
                Err(e) => r matches Err(e2) && e2 == e,
            },
    {
        check_token_call_accounts(accounts)?;
        Ok(TransferToken {
            from: accounts[0].key.copy(),
            to: accounts[1].key.copy(),
            authority: accounts[2].key.copy(),
        })
    }
}

/// Builds the token program's `MintTo` of `amount` to the destination.
pub fn mint_token(accounts: &MintToken, amount: u64) -> (r: Result<Instruction, ProgramError>)
    ensures
        r matches Ok(ix) && ix@ == spec_mint_to_instruction(accounts.mint@, accounts.destination@, accounts.authority@, amount),
{
    let token = token_program_id();
    token_mint_to(&token, &accounts.mint, &accounts.destination, &accounts.authority, amount)
}

/// Builds the token program's `Transfer` of `amount` between the accounts.
pub fn transfer_token(accounts: &TransferToken, amount: u64) -> (r: Result<Instruction, ProgramError>)
    ensures
        r matches Ok(ix) && ix@ == spec_transfer_instruction(accounts.from@, accounts.to@, accounts.authority@, amount),
{
    let token = token_program_id();
    token_transfer(&token, &accounts.from, &accounts.to, &accounts.authority, amount)
}

/// What `mint_token` does, given the bytes after the discriminator.
pub open spec fn spec_process_mint_token(accounts: Seq<AccountView>, args: Seq<u8>) -> Result<InstructionSpec, ProgramError> {
    match spec_read_u64_arg(args) {
        Err(e) => Err(ProgramError::Anchor(e)),
        Ok(v) => match spec_token_call_accounts(accounts) {
            Err(e) => Err(ProgramError::Anchor(e)),
            Ok(_) => Ok(spec_mint_to_instruction(accounts[0].key@, accounts[1].key@, accounts[2].key@, v)),
        },
    }
}

/// What `transfer_token` does, given the bytes after the discriminator.
pub open spec fn spec_process_transfer_token(accounts: Seq<AccountView>, args: Seq<u8>) -> Result<InstructionSpec, ProgramError> {
    match spec_read_u64_arg(args) {
        Err(e) => Err(ProgramError::Anchor(e)),
        Ok(v) => match spec_token_call_accounts(accounts) {
            Err(e) => Err(ProgramError::Anchor(e)),
            Ok(_) => Ok(spec_transfer_instruction(accounts[0].key@, accounts[1].key@, accounts[2].key@, v)),
        },
    }
}

/// Runs `mint_token`: reads the amount, checks the accounts, returns the
/// token program invocation to make.
pub fn process_mint_token(accounts: &Vec<AccountView>, args: &[u8]) -> (r: Result<Instruction, ProgramError>)
    ensures
        match spec_process_mint_token(accounts@, args@) {
            Ok(i) => r matches Ok(ix) && ix@ == i,
            Err(e) => r matches Err(e2) && e2 == e,
        },
{
    let amount = match read_u64_arg(args) {
        Ok(v) => v,
        Err(e) => return Err(ProgramError::Anchor(e)),
    };
    let checked = match MintToken::try_accounts(accounts) {
        Ok(c) => c,
        Err(e) => return Err(ProgramError::Anchor(e)),
    };
    mint_token(&checked, amount)
}

/// Runs `transfer_token`: reads the amount, checks the accounts, returns the
/// token program invocation to make.
pub fn process_transfer_token(accounts: &Vec<AccountView>, args: &[u8]) -> (r: Result<Instruction, ProgramError>)
    ensures
        match spec_process_transfer_token(accounts@, args@) {
            Ok(i) => r matches Ok(ix) && ix@ == i,
            Err(e) => r matches Err(e2) && e2 == e,
        },
{
    let amount = match read_u64_arg(args) {
        Ok(v) => v,
        Err(e) => return Err(ProgramError::Anchor(e)),
    };
    let checked = match TransferToken::try_accounts(accounts) {
        Ok(c) => c,
        Err(e) => return Err(ProgramError::Anchor(e)),
    };
    transfer_token(&checked, amount)
}


pub fn token_example_program_id() -> (k: Pubkey)
    ensures
        k@ == spec_token_example_program_id(),
{
    let k = Pubkey {
        bytes: [
            110, 210, 169, 99, 146, 40, 49, 59, 183, 172, 134, 69, 2, 236, 74, 87,
            54, 139, 193, 42, 128, 48, 26, 238, 39, 42, 244, 12, 20, 85, 244, 56,
        ],
    };
    assert(k@ =~= spec_token_example_program_id());
    k
}

/// First eight bytes of sha256("global:create_mint").
pub open spec fn spec_create_mint_discriminator() -> Seq<u8> {
    seq![69u8, 44, 215, 132, 253, 214, 41, 45]
}

/// First eight bytes of sha256("global:mint_token").
pub open spec fn spec_mint_token_discriminator() -> Seq<u8> {
    seq![172u8, 137, 183, 14, 207, 110, 234, 56]
}

/// First eight bytes of sha256("global:transfer_token").
pub open spec fn spec_transfer_token_discriminator() -> Seq<u8> {
    seq![219u8, 17, 122, 53, 237, 171, 232, 222]
}

/// The token example program's instructions.
#[derive(Debug, Clone, Copy, PartialEq, Eq, Structural)]
pub enum TokenExampleInstruction {
    CreateMint { decimals: u8 },
    MintToken { amount: u64 },
    TransferToken { amount: u64 },
}

pub open spec fn spec_token_example_instruction_data(ix: TokenExampleInstruction) -> Seq<u8> {
    match ix {
        TokenExampleInstruction::CreateMint { decimals } => spec_create_mint_discriminator() + seq![decimals],
        TokenExampleInstruction::MintToken { amount } => spec_mint_token_discriminator() + spec_u64_to_le_bytes(amount),
        TokenExampleInstruction::TransferToken { amount } => spec_transfer_token_discriminator() + spec_u64_to_le_bytes(amount),
    }
}

/// Which instruction `data` selects and with which argument; `Ok(None)` for
/// data that selects none of this program's instructions.
pub open spec fn spec_decode_token_example_instruction(data: Seq<u8>) -> Result<Option<TokenExampleInstruction>, ErrorCode> {
    let args = data.subrange(8, data.len() as int);
    if starts_with(data, spec_create_mint_discriminator()) {
        match spec_read_u8_arg(args) {
            Ok(d) => Ok(Some(TokenExampleInstruction::CreateMint { decimals: d })),
            Err(e) => Err(e),
        }
    } else if starts_with(data, spec_mint_token_discriminator()) {
        match spec_read_u64_arg(args) {
            Ok(v) => Ok(Some(TokenExampleInstruction::MintToken { amount: v })),
            Err(e) => Err(e),
        }
    } else if starts_with(data, spec_transfer_token_discriminator()) {
        match spec_read_u64_arg(args) {
            Ok(v) => Ok(Some(TokenExampleInstruction::TransferToken { amount: v })),
            Err(e) => Err(e),
        }
    } else {
        Ok(None)
    }
}

impl TokenExampleInstruction {
    pub fn data(&self) -> (d: Vec<u8>)
        ensures
            d@ == spec_token_example_instruction_data(*self),
    {
        match self {
            TokenExampleInstruction::CreateMint { decimals } => {
                let disc: [u8; 8] = [69, 44, 215, 132, 253, 214, 41, 45];
                assert(disc@ =~= spec_create_mint_discriminator());
                let mut d = crate::codec::instruction_data(&disc);
                d.push(*decimals);
                d
            },
            TokenExampleInstruction::MintToken { amount } => {
                let disc: [u8; 8] = [172, 137, 183, 14, 207, 110, 234, 56];
                assert(disc@ =~= spec_mint_token_discriminator());
                crate::codec::instruction_data_u64(&disc, *amount)
            },
            TokenExampleInstruction::TransferToken { amount } => {
                let disc: [u8; 8] = [219, 17, 122, 53, 237, 171, 232, 222];
                assert(disc@ =~= spec_transfer_token_discriminator());
                crate::codec::instruction_data_u64(&disc, *amount)
            },
        }
    }

    pub fn decode(data: &[u8]) -> (r: Result<Option<TokenExampleInstruction>, ErrorCode>)
        ensures
            r == spec_decode_token_example_instruction(data@),
    {
        let create: [u8; 8] = [69, 44, 215, 132, 253, 214, 41, 45];
        assert(create@ =~= spec_create_mint_discriminator());
        let mint: [u8; 8] = [172, 137, 183, 14, 207, 110, 234, 56];
        assert(mint@ =~= spec_mint_token_discriminator());
        let transfer: [u8; 8] = [219, 17, 122, 53, 237, 171, 232, 222];
        assert(transfer@ =~= spec_transfer_token_discriminator());
        if has_prefix(data, &create) {
            let args = vstd::slice::slice_subrange(data, 8, data.len());
            let d = read_u8_arg(args)?;
            Ok(Some(TokenExampleInstruction::CreateMint { decimals: d }))
        } else if has_prefix(data, &mint) {
            let args = vstd::slice::slice_subrange(data, 8, data.len());
            let v = read_u64_arg(args)?;
            Ok(Some(TokenExampleInstruction::MintToken { amount: v }))
        } else if has_prefix(data, &transfer) {
            let args = vstd::slice::slice_subrange(data, 8, data.len());
            let v = read_u64_arg(args)?;
            Ok(Some(TokenExampleInstruction::TransferToken { amount: v }))
        } else {
            Ok(None)
        }
    }
}

/// The data of an instruction selects that instruction, with its argument.
pub proof fn law_token_example_instruction_roundtrip(ix: TokenExampleInstruction)
    ensures
        spec_decode_token_example_instruction(spec_token_example_instruction_data(ix))
            == Ok::<Option<TokenExampleInstruction>, ErrorCode>(Some(ix)),
{
    vstd::bytes::lemma_auto_spec_u64_to_from_le_bytes();
    let d = spec_token_example_instruction_data(ix);
    match ix {
        TokenExampleInstruction::CreateMint { decimals } => {
            assert(d.subrange(0, 8) =~= spec_create_mint_discriminator());
            assert(d.subrange(8, d.len() as int) =~= seq![decimals]);
        },
        TokenExampleInstruction::MintToken { amount } => {
            assert(d.subrange(0, 8) =~= spec_mint_token_discriminator());
            assert(d.subrange(0, 8)[0] != spec_create_mint_discriminator()[0]);
            assert(d.subrange(8, d.len() as int).subrange(0, 8) =~= spec_u64_to_le_bytes(amount));
        },
        TokenExampleInstruction::TransferToken { amount } => {
            assert(d.subrange(0, 8) =~= spec_transfer_token_discriminator());
            assert(d.subrange(0, 8)[0] != spec_create_mint_discriminator()[0]);
            assert(d.subrange(0, 8)[0] != spec_mint_token_discriminator()[0]);
            assert(d.subrange(8, d.len() as int).subrange(0, 8) =~= spec_u64_to_le_bytes(amount));
        },
    }
}

/// Which instruction the program runs for `data`, once it has checked that it
/// runs under its declared address; data that selects none of its
/// instructions goes to the framework's answer (`spec_framework_dispatch`).
pub open spec fn spec_entry(program_id: Seq<u8>, data: Seq<u8>) -> Result<Dispatch<TokenExampleInstruction>, ErrorCode> {
    if program_id != spec_token_example_program_id() {
        Err(ErrorCode::DeclaredProgramIdMismatch)
    } else {
        match spec_decode_token_example_instruction(data) {
            Ok(Some(ix)) => Ok(Dispatch::Program(ix)),
            Ok(None) => spec_framework_dispatch(data),
            Err(e) => Err(e),
        }
    }
}

pub fn entry(program_id: &Pubkey, data: &[u8]) -> (r: Result<Dispatch<TokenExampleInstruction>, ErrorCode>)
    ensures
        r == spec_entry(program_id@, data@),
{
    let id = token_example_program_id();
    check_declared_id(program_id, &id)?;
    match TokenExampleInstruction::decode(data)? {
        Some(ix) => Ok(Dispatch::Program(ix)),
        None => framework_dispatch(data),
    }
}

/// `transfer_token` moves the amount it was given from the first account to
/// the second. It is accepted exactly when the argument has its eight bytes,
/// four accounts are passed, the third has signed and the first two are
/// writable; it then asks the token program for a `Transfer` (tag 3) of
/// exactly those eight bytes, with the first account as source, the second
/// as destination and the third as the signing authority.
pub proof fn law_transfer_token_request(accounts: Seq<AccountView>, args: Seq<u8>)
    ensures
        (spec_process_transfer_token(accounts, args) is Ok) == (args.len() >= 8 && accounts.len() >= 4
            && accounts[2].is_signer && accounts[0].is_writable && accounts[1].is_writable),
        spec_process_transfer_token(accounts, args) is Ok ==> spec_process_transfer_token(accounts, args)->Ok_0 == (InstructionSpec {
            program_id: spec_token_program_id(),
            accounts: seq![
                meta(accounts[0].key@, false, true),
                meta(accounts[1].key@, false, true),
                meta(accounts[2].key@, true, false),
            ],
            data: seq![3u8] + args.subrange(0, 8),
        }),
{
    if args.len() >= 8 {
        crate::codec::lemma_u64_arg_bytes(args);
    }
}

/// `mint_token` mints the amount it was given into the second account. It is
/// accepted exactly when the argument has its eight bytes, four accounts are
/// passed, the third has signed and the first two are writable; it then asks
/// the token program for a `MintTo` (tag 7) of exactly those eight bytes,
/// from the mint (first account) to the destination (second), signed by the
/// mint authority (third).
pub proof fn law_mint_token_request(accounts: Seq<AccountView>, args: Seq<u8>)
    ensures
        (spec_process_mint_token(accounts, args) is Ok) == (args.len() >= 8 && accounts.len() >= 4
            && accounts[2].is_signer && accounts[0].is_writable && accounts[1].is_writable),
        spec_process_mint_token(accounts, args) is Ok ==> spec_process_mint_token(accounts, args)->Ok_0 == (InstructionSpec {
            program_id: spec_token_program_id(),
            accounts: seq![
                meta(accounts[0].key@, false, true),
                meta(accounts[1].key@, false, true),
                meta(accounts[2].key@, true, false),
            ],
            data: seq![7u8] + args.subrange(0, 8),
        }),
{
    if args.len() >= 8 {
        crate::codec::lemma_u64_arg_bytes(args);
    }
}

/// `create_mint` creates and initializes the mint it was given, with the
/// decimals it was asked for. It is accepted exactly when the argument has
/// its byte, six accounts are passed, the mint (first) and the payer (second)
/// have signed and are writable, the fourth is the executable system program
/// and the sixth loads as the rent sysvar. It then asks, in order, the system
/// program to create the mint, paid by the payer, with `rent_lamports`
/// lamports and 82 bytes, owned by the fifth account; and the token program
/// to initialize it with the decimals byte `args[0]` and the third account as
/// both mint and freeze authority.
pub proof fn law_create_mint_request(accounts: Seq<AccountView>, args: Seq<u8>, rent_lamports: u64)
    ensures
        (spec_process_create_mint(accounts, args, rent_lamports) is Ok) == (args.len() >= 1 && accounts.len() >= 6
            && accounts[0].is_signer && accounts[0].is_writable
            && accounts[1].is_signer && accounts[1].is_writable
            && accounts[3].key@ == spec_system_program_id() && accounts[3].executable
            && rent_sysvar_loads(accounts[5].key@, accounts[5].data@)),
        spec_process_create_mint(accounts, args, rent_lamports) is Ok ==> spec_process_create_mint(accounts, args, rent_lamports)->Ok_0 == seq![
            InstructionSpec {
                program_id: spec_system_program_id(),
                accounts: seq![meta(accounts[1].key@, true, true), meta(accounts[0].key@, true, true)],
                data: seq![0u8, 0, 0, 0] + spec_u64_to_le_bytes(rent_lamports) + spec_u64_to_le_bytes(82)
                    + accounts[4].key@,
            },
            InstructionSpec {
                program_id: spec_token_program_id(),
                accounts: seq![meta(accounts[0].key@, false, true), meta(spec_rent_sysvar_id(), false, false)],
                data: seq![0u8, args[0]] + accounts[2].key@ + seq![1u8] + accounts[2].key@,
            },
        ],
{
    if spec_process_create_mint(accounts, args, rent_lamports) is Ok {
        let k = accounts[2].key@;
        assert(seq![0u8, args[0]] + k + (seq![1u8] + k) =~= seq![0u8, args[0]] + k + seq![1u8] + k);
    }
}

} // verus!
