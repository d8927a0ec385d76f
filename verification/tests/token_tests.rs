use solana_programs::account::{AccountView, Dispatch, Instruction};
use solana_programs::error::{ErrorCode, ProgramError};
use solana_programs::pubkey::{rent_sysvar_id, system_program_id, token_program_id, Pubkey};
use solana_programs::spl_token_example::{
    check_rent_sysvar, entry, process_create_mint, process_mint_token, process_transfer_token,
    token_example_program_id, TokenExampleInstruction, MINT_SPACE,
};

fn key(b: u8) -> Pubkey {
    Pubkey { bytes: [b; 32] }
}

fn account(k: Pubkey, data: Vec<u8>, signer: bool, writable: bool, executable: bool) -> AccountView {
    AccountView { key: k, owner: key(0), lamports: 1_000_000, data, is_signer: signer, is_writable: writable, executable }
}

fn solana(p: &Pubkey) -> anchor_lang::prelude::Pubkey {
    anchor_lang::prelude::Pubkey::new_from_array(p.bytes)
}

fn same(ours: &Instruction, theirs: &anchor_lang::solana_program::instruction::Instruction) {
    assert_eq!(ours.program_id.bytes, theirs.program_id.to_bytes());
    assert_eq!(ours.data, theirs.data);
    assert_eq!(ours.accounts.len(), theirs.accounts.len());
    for (a, b) in ours.accounts.iter().zip(theirs.accounts.iter()) {
        assert_eq!(a.pubkey.bytes, b.pubkey.to_bytes());
        assert_eq!(a.is_signer, b.is_signer);
        assert_eq!(a.is_writable, b.is_writable);
    }
}

fn rent_data() -> Vec<u8> {
    bincode_rent(&anchor_lang::prelude::Rent::default())
}

fn bincode_rent(r: &anchor_lang::prelude::Rent) -> Vec<u8> {
    let mut d = r.lamports_per_byte_year.to_le_bytes().to_vec();
    d.extend_from_slice(&r.exemption_threshold.to_le_bytes());
    d.push(r.burn_percent);
    d
}

fn create_mint_accounts() -> Vec<AccountView> {
    vec![
        account(key(1), vec![], true, true, false),
        account(key(2), vec![], true, true, false),
        account(key(3), vec![], false, false, false),
        account(system_program_id(), vec![], false, false, true),
        account(token_program_id(), vec![], false, false, true),
        account(rent_sysvar_id(), rent_data(), false, false, false),
    ]
}

#[test]
fn ids_and_discriminators_match() {
    assert_eq!(token_program_id().bytes, anchor_spl::token::ID.to_bytes());
    assert_eq!(rent_sysvar_id().bytes, anchor_lang::solana_program::sysvar::rent::ID.to_bytes());
    assert_eq!(system_program_id().bytes, anchor_lang::solana_program::system_program::ID.to_bytes());
    let declared: anchor_lang::prelude::Pubkey = "8TcA7B4GMhsu6GNgUChTLrSp59ufp68Seee1XToY6wfD".parse().unwrap();
    assert_eq!(token_example_program_id().bytes, declared.to_bytes());
    let h = anchor_lang::solana_program::hash::hash(b"global:create_mint").to_bytes();
    assert_eq!(TokenExampleInstruction::CreateMint { decimals: 6 }.data(), [&h[..8], &[6u8][..]].concat());
    let h = anchor_lang::solana_program::hash::hash(b"global:mint_token").to_bytes();
    assert_eq!(TokenExampleInstruction::MintToken { amount: 0 }.data()[..8].to_vec(), h[..8].to_vec());
    let h = anchor_lang::solana_program::hash::hash(b"global:transfer_token").to_bytes();
    assert_eq!(TokenExampleInstruction::TransferToken { amount: 0 }.data()[..8].to_vec(), h[..8].to_vec());
}

#[test]
fn create_mint_creates_and_initializes() {
    let accounts = create_mint_accounts();
    let ixs = process_create_mint(&accounts, &[9], 1_461_600).unwrap();
    assert_eq!(ixs.len(), 2);
    let mut create = vec![0u8, 0, 0, 0];
    create.extend_from_slice(&1_461_600u64.to_le_bytes());
    create.extend_from_slice(&82u64.to_le_bytes());
    create.extend_from_slice(&token_program_id().bytes);
    assert_eq!(ixs[0].data, create);
    assert_eq!(ixs[0].program_id.bytes, [0u8; 32]);
    assert_eq!(ixs[0].accounts[0].pubkey.bytes, [2u8; 32]);
    assert_eq!(ixs[0].accounts[1].pubkey.bytes, [1u8; 32]);
    let mut init = vec![0u8, 9];
    init.extend_from_slice(&[3u8; 32]);
    init.push(1);
    init.extend_from_slice(&[3u8; 32]);
    assert_eq!(ixs[1].data, init);
    assert_eq!(ixs[1].program_id.bytes, token_program_id().bytes);
    assert_eq!(ixs[1].accounts[1].pubkey.bytes, rent_sysvar_id().bytes);
    assert_eq!(MINT_SPACE as usize, <anchor_spl::token::spl_token::state::Mint as anchor_lang::solana_program::program_pack::Pack>::LEN);
    let theirs = anchor_spl::token::spl_token::instruction::initialize_mint(
        &anchor_spl::token::ID, &solana(&key(1)), &solana(&key(3)), Some(&solana(&key(3))), 9,
    ).unwrap();
    same(&ixs[1], &theirs);
}

#[test]
fn create_mint_refusals() {
    let mut a = create_mint_accounts();
    a[0].is_signer = false;
    assert_eq!(process_create_mint(&a, &[9], 1).err(), Some(ProgramError::Anchor(ErrorCode::AccountNotSigner)));
    let mut a = create_mint_accounts();
    a[5].key = key(5);
    assert_eq!(process_create_mint(&a, &[9], 1).err(), Some(ProgramError::Anchor(ErrorCode::AccountSysvarMismatch)));
    let mut a = create_mint_accounts();
    a[5].data = vec![1, 2, 3];
    assert_eq!(process_create_mint(&a, &[9], 1).err(), Some(ProgramError::Anchor(ErrorCode::AccountSysvarMismatch)));
    let mut a = create_mint_accounts();
    a[3].key = key(4);
    assert_eq!(process_create_mint(&a, &[9], 1).err(), Some(ProgramError::Anchor(ErrorCode::InvalidProgramId)));
    let mut a = create_mint_accounts();
    a[1].is_writable = false;
    assert_eq!(process_create_mint(&a, &[9], 1).err(), Some(ProgramError::Anchor(ErrorCode::ConstraintMut)));
    let a = create_mint_accounts();
    assert_eq!(process_create_mint(&a, &[], 1).err(), Some(ProgramError::Anchor(ErrorCode::InstructionDidNotDeserialize)));
    let mut a = create_mint_accounts();
    a.truncate(5);
    assert_eq!(process_create_mint(&a, &[9], 1).err(), Some(ProgramError::Anchor(ErrorCode::AccountNotEnoughKeys)));
}

fn call_accounts(signer: bool) -> Vec<AccountView> {
    vec![
        account(key(1), vec![], false, true, false),
        account(key(2), vec![], false, true, false),
        account(key(3), vec![], signer, false, false),
        account(token_program_id(), vec![], false, false, true),
    ]
}

#[test]
fn mint_token_builds_mint_to() {
    let ix = process_mint_token(&call_accounts(true), &500u64.to_le_bytes()).unwrap();
    let mut data = vec![7u8];
    data.extend_from_slice(&500u64.to_le_bytes());
    assert_eq!(ix.data, data);
    let theirs = anchor_spl::token::spl_token::instruction::mint_to(
        &anchor_spl::token::ID, &solana(&key(1)), &solana(&key(2)), &solana(&key(3)), &[], 500,
    ).unwrap();
    same(&ix, &theirs);
    assert_eq!(
        process_mint_token(&call_accounts(false), &500u64.to_le_bytes()).err(),
        Some(ProgramError::Anchor(ErrorCode::AccountNotSigner))
    );
}

#[test]
fn transfer_token_builds_transfer() {
    let ix = process_transfer_token(&call_accounts(true), &25u64.to_le_bytes()).unwrap();
    let mut data = vec![3u8];
    data.extend_from_slice(&25u64.to_le_bytes());
    assert_eq!(ix.data, data);
    assert!(ix.accounts[2].is_signer && !ix.accounts[2].is_writable);
    let mut readonly = call_accounts(true);
    readonly[1].is_writable = false;
    assert_eq!(
        process_transfer_token(&readonly, &25u64.to_le_bytes()).err(),
        Some(ProgramError::Anchor(ErrorCode::ConstraintMut))
    );
    assert_eq!(
        process_transfer_token(&call_accounts(true), &[1]).err(),
        Some(ProgramError::Anchor(ErrorCode::InstructionDidNotDeserialize))
    );
}

#[test]
fn rent_sysvar_check() {
    assert_eq!(check_rent_sysvar(&account(rent_sysvar_id(), rent_data(), false, false, false)), Ok(()));
    assert_eq!(
        check_rent_sysvar(&account(key(9), rent_data(), false, false, false)),
        Err(ErrorCode::AccountSysvarMismatch)
    );
}

#[test]
fn token_example_decode() {
    for ix in [
        TokenExampleInstruction::CreateMint { decimals: 2 },
        TokenExampleInstruction::MintToken { amount: 10 },
        TokenExampleInstruction::TransferToken { amount: 11 },
    ] {
        assert_eq!(TokenExampleInstruction::decode(&ix.data()), Ok(Some(ix)));
        assert_eq!(entry(&token_example_program_id(), &ix.data()), Ok(Dispatch::Program(ix)));
    }
}
