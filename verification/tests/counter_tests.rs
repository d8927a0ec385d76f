use solana_programs::account::{AccountView, Dispatch};
use solana_programs::counter::{
    counter_discriminator, counter_program_id, entry, increment, initialize_counter,
    process_increment, process_initialize_counter, Counter, CounterInstruction, COUNTER_SPACE,
};
use solana_programs::error::{ErrorCode, MyError, ProgramError};
use solana_programs::pubkey::{system_program_id, Pubkey};
use anchor_lang::error::ErrorCode as A;

fn key(b: u8) -> Pubkey {
    Pubkey { bytes: [b; 32] }
}

fn account(k: Pubkey, owner: Pubkey, lamports: u64, data: Vec<u8>, signer: bool, writable: bool) -> AccountView {
    AccountView { key: k, owner, lamports, data, is_signer: signer, is_writable: writable, executable: false }
}

fn counter_data(count: u64) -> Vec<u8> {
    let mut d = counter_discriminator().to_vec();
    d.extend_from_slice(&count.to_le_bytes());
    d
}

fn counter_account(count: u64, writable: bool) -> AccountView {
    account(key(7), counter_program_id(), 1_000_000, counter_data(count), false, writable)
}

#[test]
fn increment_adds_one() {
    let mut c = Counter { count: 41 };
    assert_eq!(increment(&mut c), Ok(()));
    assert_eq!(c.count, 42);
}

#[test]
fn increment_refuses_overflow() {
    let mut c = Counter { count: u64::MAX };
    assert_eq!(increment(&mut c), Err(ProgramError::Custom(MyError::Overflow)));
    assert_eq!(c.count, u64::MAX);
}

#[test]
fn initialize_sets_zero() {
    let mut c = Counter { count: 9 };
    assert_eq!(initialize_counter(&mut c), Ok(()));
    assert_eq!(c.count, 0);
}

#[test]
fn discriminators_are_anchor_hashes() {
    let h = anchor_lang::solana_program::hash::hash(b"account:Counter").to_bytes();
    assert_eq!(counter_discriminator().to_vec(), h[..8].to_vec());
    let h = anchor_lang::solana_program::hash::hash(b"global:increment").to_bytes();
    assert_eq!(CounterInstruction::Increment.data(), h[..8].to_vec());
    let h = anchor_lang::solana_program::hash::hash(b"global:initialize_counter").to_bytes();
    assert_eq!(CounterInstruction::InitializeCounter.data(), h[..8].to_vec());
}

#[test]
fn program_id_matches_declared_address() {
    let declared: anchor_lang::prelude::Pubkey = "7XBBYkPXKXA7bMC3eJwgmYKmmjqmGrTs15FFmJPELWau".parse().unwrap();
    assert_eq!(counter_program_id().bytes, declared.to_bytes());
}

#[test]
fn decode_roundtrip() {
    for ix in [CounterInstruction::InitializeCounter, CounterInstruction::Increment] {
        assert_eq!(CounterInstruction::decode(&ix.data()), Some(ix));
    }
    assert_eq!(CounterInstruction::decode(&[1, 2, 3]), None);
}

#[test]
fn entry_checks_program_and_data() {
    let data = CounterInstruction::Increment.data();
    assert_eq!(entry(&counter_program_id(), &data), Ok(Dispatch::Program(CounterInstruction::Increment)));
    assert_eq!(entry(&key(1), &data), Err(ErrorCode::DeclaredProgramIdMismatch));
    assert_eq!(entry(&counter_program_id(), &[0u8; 8]), Err(ErrorCode::InstructionFallbackNotFound));
}

#[test]
fn entry_hands_framework_tags_on() {
    let idl = anchor_lang::idl::IDL_IX_TAG_LE.to_vec();
    assert_eq!(entry(&counter_program_id(), &idl), Ok(Dispatch::Idl));
    let event = anchor_lang::event::EVENT_IX_TAG_LE.to_vec();
    assert_eq!(entry(&counter_program_id(), &event), Err(ErrorCode::EventInstructionStub));
    assert_eq!(ErrorCode::EventInstructionStub.number(), A::EventInstructionStub as u32);
}

#[test]
fn overflow_message() {
    assert_eq!(MyError::Overflow.message(), "Ha ocurrido un desbordamiento aritmético (Overflow).");
}

#[test]
fn process_increment_stores_new_count() {
    let mut accounts = vec![counter_account(5, true)];
    assert_eq!(process_increment(&mut accounts), Ok(()));
    assert_eq!(accounts[0].data, counter_data(6));
    assert_eq!(Counter::try_deserialize(&accounts[0].data), Ok(Counter { count: 6 }));
}

#[test]
fn process_increment_keeps_trailing_bytes() {
    let mut d = counter_data(1);
    d.extend_from_slice(&[9, 9]);
    let mut accounts = vec![account(key(7), counter_program_id(), 5, d, false, true)];
    assert_eq!(process_increment(&mut accounts), Ok(()));
    let mut expected = counter_data(2);
    expected.extend_from_slice(&[9, 9]);
    assert_eq!(accounts[0].data, expected);
}

#[test]
fn process_increment_overflow_leaves_account() {
    let mut accounts = vec![counter_account(u64::MAX, true)];
    assert_eq!(process_increment(&mut accounts), Err(ProgramError::Custom(MyError::Overflow)));
    assert_eq!(accounts[0].data, counter_data(u64::MAX));
}

#[test]
fn process_increment_account_errors() {
    let mut none: Vec<AccountView> = vec![];
    assert_eq!(process_increment(&mut none), Err(ProgramError::Anchor(ErrorCode::AccountNotEnoughKeys)));
    let mut readonly = vec![counter_account(1, false)];
    assert_eq!(process_increment(&mut readonly), Err(ProgramError::Anchor(ErrorCode::ConstraintMut)));
    let mut foreign = vec![account(key(7), key(3), 5, counter_data(1), false, true)];
    assert_eq!(process_increment(&mut foreign), Err(ProgramError::Anchor(ErrorCode::AccountOwnedByWrongProgram)));
    let mut missing = vec![account(key(7), system_program_id(), 0, vec![], false, true)];
    assert_eq!(process_increment(&mut missing), Err(ProgramError::Anchor(ErrorCode::AccountNotInitialized)));
    let mut short = vec![account(key(7), counter_program_id(), 5, vec![1, 2], false, true)];
    assert_eq!(process_increment(&mut short), Err(ProgramError::Anchor(ErrorCode::AccountDiscriminatorNotFound)));
    let mut wrong = vec![account(key(7), counter_program_id(), 5, vec![0; 16], false, true)];
    assert_eq!(process_increment(&mut wrong), Err(ProgramError::Anchor(ErrorCode::AccountDiscriminatorMismatch)));
    let mut cut = vec![account(key(7), counter_program_id(), 5, counter_discriminator().to_vec(), false, true)];
    assert_eq!(process_increment(&mut cut), Err(ProgramError::Anchor(ErrorCode::AccountDidNotDeserialize)));
    assert_eq!(cut[0].data, counter_discriminator().to_vec());
}

#[test]
fn counter_counts_from_zero() {
    let mut accounts = vec![counter_account(0, true)];
    for _ in 0..5 {
        assert_eq!(process_increment(&mut accounts), Ok(()));
    }
    assert_eq!(Counter::try_deserialize(&accounts[0].data), Ok(Counter { count: 5 }));
}

#[test]
fn serialize_needs_room() {
    let mut small = vec![1u8; 10];
    assert_eq!(Counter { count: 3 }.try_serialize(&mut small), Err(ErrorCode::AccountDidNotSerialize));
    assert_eq!(small, vec![1u8; 10]);
}

fn system_program_account() -> AccountView {
    AccountView {
        key: system_program_id(),
        owner: key(0xEE),
        lamports: 1,
        data: vec![],
        is_signer: false,
        is_writable: false,
        executable: true,
    }
}

#[test]
fn initialize_counter_creates_account() {
    let payer = account(key(1), system_program_id(), 10_000_000, vec![], true, true);
    let new = account(key(2), system_program_id(), 0, vec![], true, true);
    let accounts = vec![payer, new, system_program_account()];
    let plan = process_initialize_counter(&accounts, 1_002_240).unwrap();
    assert_eq!(plan.invocations.len(), 1);
    let create = &plan.invocations[0];
    assert_eq!(create.program_id.bytes, [0u8; 32]);
    let mut expected = vec![0u8, 0, 0, 0];
    expected.extend_from_slice(&1_002_240u64.to_le_bytes());
    expected.extend_from_slice(&COUNTER_SPACE.to_le_bytes());
    expected.extend_from_slice(&counter_program_id().bytes);
    assert_eq!(create.data, expected);
    assert_eq!(create.accounts[0].pubkey.bytes, [1u8; 32]);
    assert!(create.accounts[0].is_signer && create.accounts[0].is_writable);
    assert_eq!(create.accounts[1].pubkey.bytes, [2u8; 32]);
    assert_eq!(plan.after, Ok(counter_data(0)));
}

#[test]
fn initialize_counter_tops_up_funded_account() {
    let payer = account(key(1), system_program_id(), 10_000_000, vec![], true, true);
    let new = account(key(2), system_program_id(), 400, vec![], true, true);
    let accounts = vec![payer, new, system_program_account()];
    let plan = process_initialize_counter(&accounts, 1000).unwrap();
    assert_eq!(plan.invocations.len(), 3);
    let mut transfer = vec![2u8, 0, 0, 0];
    transfer.extend_from_slice(&600u64.to_le_bytes());
    assert_eq!(plan.invocations[0].data, transfer);
    let mut allocate = vec![8u8, 0, 0, 0];
    allocate.extend_from_slice(&16u64.to_le_bytes());
    assert_eq!(plan.invocations[1].data, allocate);
    let mut assign = vec![1u8, 0, 0, 0];
    assign.extend_from_slice(&counter_program_id().bytes);
    assert_eq!(plan.invocations[2].data, assign);
    // already rent exempt: no transfer
    let payer = account(key(1), system_program_id(), 10_000_000, vec![], true, true);
    let rich = account(key(2), system_program_id(), 5000, vec![], true, true);
    let plan = process_initialize_counter(&vec![payer, rich, system_program_account()], 1000).unwrap();
    assert_eq!(plan.invocations.len(), 2);
}

#[test]
fn initialize_counter_refusals() {
    let payer = account(key(1), system_program_id(), 10, vec![], false, true);
    let new = account(key(2), system_program_id(), 0, vec![], true, true);
    assert_eq!(
        process_initialize_counter(&vec![payer, new, system_program_account()], 100).err(),
        Some(ProgramError::Anchor(ErrorCode::AccountNotSigner))
    );
    let payer = account(key(1), system_program_id(), 10, vec![], true, true);
    let same = account(key(1), system_program_id(), 10, vec![], true, true);
    assert_eq!(
        process_initialize_counter(&vec![payer, same, system_program_account()], 100).err(),
        Some(ProgramError::Anchor(ErrorCode::TryingToInitPayerAsProgramAccount))
    );
    let payer = account(key(1), system_program_id(), 10, vec![], true, true);
    let new = account(key(2), system_program_id(), 0, vec![], true, true);
    let not_system = account(key(9), key(9), 1, vec![], false, false);
    assert_eq!(
        process_initialize_counter(&vec![payer, new, not_system], 100).err(),
        Some(ProgramError::Anchor(ErrorCode::InvalidProgramId))
    );
    let payer = account(key(1), system_program_id(), 10, vec![], true, true);
    let unsigned = account(key(2), system_program_id(), 0, vec![], false, true);
    let plan = process_initialize_counter(&vec![payer, unsigned, system_program_account()], 100).unwrap();
    assert_eq!(plan.after, Err(ProgramError::Anchor(ErrorCode::ConstraintSigner)));
}

#[test]
fn error_numbers_match_anchor() {
    let pairs = [
        (ErrorCode::InstructionFallbackNotFound, A::InstructionFallbackNotFound),
        (ErrorCode::InstructionDidNotDeserialize, A::InstructionDidNotDeserialize),
        (ErrorCode::ConstraintMut, A::ConstraintMut),
        (ErrorCode::ConstraintSigner, A::ConstraintSigner),
        (ErrorCode::ConstraintSeeds, A::ConstraintSeeds),
        (ErrorCode::AccountDiscriminatorNotFound, A::AccountDiscriminatorNotFound),
        (ErrorCode::AccountDiscriminatorMismatch, A::AccountDiscriminatorMismatch),
        (ErrorCode::AccountDidNotDeserialize, A::AccountDidNotDeserialize),
        (ErrorCode::AccountDidNotSerialize, A::AccountDidNotSerialize),
        (ErrorCode::AccountNotEnoughKeys, A::AccountNotEnoughKeys),
        (ErrorCode::AccountOwnedByWrongProgram, A::AccountOwnedByWrongProgram),
        (ErrorCode::InvalidProgramId, A::InvalidProgramId),
        (ErrorCode::InvalidProgramExecutable, A::InvalidProgramExecutable),
        (ErrorCode::AccountNotSigner, A::AccountNotSigner),
        (ErrorCode::AccountNotInitialized, A::AccountNotInitialized),
        (ErrorCode::AccountSysvarMismatch, A::AccountSysvarMismatch),
        (ErrorCode::DeclaredProgramIdMismatch, A::DeclaredProgramIdMismatch),
        (ErrorCode::TryingToInitPayerAsProgramAccount, A::TryingToInitPayerAsProgramAccount),
    ];
    for (ours, theirs) in pairs {
        assert_eq!(ours.number(), theirs as u32);
    }
    assert_eq!(MyError::Overflow.number(), anchor_lang::error::ERROR_CODE_OFFSET);
}
