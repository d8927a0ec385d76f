use solana_programs::account::{AccountView, Dispatch};
use solana_programs::cpi_engine::{
    engine_program_id, engine_stats_discriminator, process_set_rpm, EngineInstruction, EngineStats,
};
use solana_programs::cpi_lever::{lever_program_id, process_switch_lever, LeverInstruction};
use solana_programs::cpi_secure_proxy::{
    controller_auth_seed, process_execute_proxy_update, proxy_program_id, ProxyInstruction,
};
use solana_programs::cpi_secure_vault::{
    process_update_contents, vault_data_discriminator, vault_program_id, VaultData, VaultInstruction,
};
use solana_programs::error::{ErrorCode, ProgramError};
use solana_programs::pubkey::Pubkey;

fn key(b: u8) -> Pubkey {
    Pubkey { bytes: [b; 32] }
}

fn account(k: Pubkey, owner: Pubkey, data: Vec<u8>, signer: bool, writable: bool, executable: bool) -> AccountView {
    AccountView { key: k, owner, lamports: 1_000_000, data, is_signer: signer, is_writable: writable, executable }
}

fn state(disc: [u8; 8], v: u64) -> Vec<u8> {
    let mut d = disc.to_vec();
    d.extend_from_slice(&v.to_le_bytes());
    d
}

fn hash8(s: &[u8]) -> Vec<u8> {
    anchor_lang::solana_program::hash::hash(s).to_bytes()[..8].to_vec()
}

fn program_account(id: Pubkey) -> AccountView {
    account(id, key(0xEE), vec![], false, false, true)
}

#[test]
fn discriminators_and_ids_match_anchor() {
    assert_eq!(engine_stats_discriminator().to_vec(), hash8(b"account:EngineStats"));
    assert_eq!(vault_data_discriminator().to_vec(), hash8(b"account:VaultData"));
    assert_eq!(EngineInstruction::Initialize.data(), hash8(b"global:initialize"));
    assert_eq!(EngineInstruction::SetRpm { new_rpm: 0 }.data()[..8].to_vec(), hash8(b"global:set_rpm"));
    assert_eq!(VaultInstruction::UpdateContents { new_value: 0 }.data()[..8].to_vec(), hash8(b"global:update_contents"));
    assert_eq!(LeverInstruction::SwitchLever { new_rpm: 0 }.data()[..8].to_vec(), hash8(b"global:switch_lever"));
    assert_eq!(ProxyInstruction::ExecuteProxyUpdate { value: 0 }.data()[..8].to_vec(), hash8(b"global:execute_proxy_update"));
    let ids = [
        (engine_program_id(), "HdD4VXi25uuvN9QnQXmAjRix9ELk7HmWEm9Xq5qdk9pE"),
        (lever_program_id(), "2XAFBGfTy3NXB33XAh26MQwSeLo1Ku8tErHvjrMdWxKN"),
        (proxy_program_id(), "BfZQac4ivDdAC9jhvWFV5sdaioSRpmKK4U3ND6nCLYkG"),
        (vault_program_id(), "4s6WGZESrg51X63AbYT94uxck9fSBuPM2EeUk5wbZcxV"),
    ];
    for (ours, text) in ids {
        let declared: anchor_lang::prelude::Pubkey = text.parse().unwrap();
        assert_eq!(ours.bytes, declared.to_bytes());
    }
}

#[test]
fn set_rpm_stores_value() {
    let mut accounts = vec![account(key(5), engine_program_id(), state(engine_stats_discriminator(), 10), false, true, false)];
    assert_eq!(process_set_rpm(&mut accounts, &3000u64.to_le_bytes()), Ok(()));
    assert_eq!(EngineStats::try_deserialize(&accounts[0].data), Ok(EngineStats { rpm: 3000 }));
    assert_eq!(
        process_set_rpm(&mut accounts, &[1, 2]),
        Err(ProgramError::Anchor(ErrorCode::InstructionDidNotDeserialize))
    );
}

#[test]
fn engine_decode_roundtrip() {
    for ix in [EngineInstruction::Initialize, EngineInstruction::SetRpm { new_rpm: 77 }] {
        assert_eq!(EngineInstruction::decode(&ix.data()), Ok(Some(ix)));
    }
    let mut short = EngineInstruction::SetRpm { new_rpm: 1 }.data();
    short.truncate(12);
    assert_eq!(EngineInstruction::decode(&short), Err(ErrorCode::InstructionDidNotDeserialize));
}

#[test]
fn lever_forwards_to_engine() {
    let engine_acc = key(5);
    let lever_accounts = vec![
        account(engine_acc.copy(), engine_program_id(), vec![], false, true, false),
        program_account(engine_program_id()),
    ];
    let ix = process_switch_lever(&lever_accounts, &4200u64.to_le_bytes()).unwrap();
    assert_eq!(ix.program_id.bytes, engine_program_id().bytes);
    assert_eq!(ix.accounts.len(), 1);
    assert_eq!(ix.accounts[0].pubkey.bytes, engine_acc.bytes);
    assert!(ix.accounts[0].is_writable && !ix.accounts[0].is_signer);
    assert_eq!(EngineInstruction::decode(&ix.data), Ok(Some(EngineInstruction::SetRpm { new_rpm: 4200 })));
    // the engine runs what the lever sent
    let mut engine_accounts = vec![account(engine_acc, engine_program_id(), state(engine_stats_discriminator(), 0), false, true, false)];
    assert_eq!(process_set_rpm(&mut engine_accounts, &ix.data[8..]), Ok(()));
    assert_eq!(EngineStats::try_deserialize(&engine_accounts[0].data), Ok(EngineStats { rpm: 4200 }));
}

#[test]
fn lever_checks_engine_program() {
    let wrong = vec![account(key(5), engine_program_id(), vec![], false, true, false), program_account(key(8))];
    assert_eq!(process_switch_lever(&wrong, &1u64.to_le_bytes()).err(), Some(ProgramError::Anchor(ErrorCode::InvalidProgramId)));
    let not_exec = vec![
        account(key(5), engine_program_id(), vec![], false, true, false),
        account(engine_program_id(), key(0xEE), vec![], false, false, false),
    ];
    assert_eq!(process_switch_lever(&not_exec, &1u64.to_le_bytes()).err(), Some(ProgramError::Anchor(ErrorCode::InvalidProgramExecutable)));
    let readonly = vec![account(key(5), engine_program_id(), vec![], false, false, false), program_account(engine_program_id())];
    assert_eq!(process_switch_lever(&readonly, &1u64.to_le_bytes()).err(), Some(ProgramError::Anchor(ErrorCode::ConstraintMut)));
    let one = vec![account(key(5), engine_program_id(), vec![], false, true, false)];
    assert_eq!(process_switch_lever(&one, &1u64.to_le_bytes()).err(), Some(ProgramError::Anchor(ErrorCode::AccountNotEnoughKeys)));
}

fn vault_account(v: u64) -> AccountView {
    account(key(6), vault_program_id(), state(vault_data_discriminator(), v), false, true, false)
}

#[test]
fn vault_needs_authority_signature() {
    let mut unsigned = vec![vault_account(1), account(key(4), key(0), vec![], false, false, false)];
    assert_eq!(
        process_update_contents(&mut unsigned, &99u64.to_le_bytes()),
        Err(ProgramError::Anchor(ErrorCode::AccountNotSigner))
    );
    assert_eq!(VaultData::try_deserialize(&unsigned[0].data), Ok(VaultData { data_value: 1 }));
    let (pda, _) = authority();
    let mut signed = vec![vault_account(1), account(pda, key(0), vec![], true, false, false)];
    assert_eq!(process_update_contents(&mut signed, &99u64.to_le_bytes()), Ok(()));
    assert_eq!(VaultData::try_deserialize(&signed[0].data), Ok(VaultData { data_value: 99 }));
}

#[test]
fn vault_refuses_other_signers() {
    let mut other = vec![vault_account(1), account(key(4), key(0), vec![], true, false, false)];
    assert_eq!(
        process_update_contents(&mut other, &99u64.to_le_bytes()),
        Err(ProgramError::Anchor(ErrorCode::ConstraintSeeds))
    );
    assert_eq!(VaultData::try_deserialize(&other[0].data), Ok(VaultData { data_value: 1 }));
}

#[test]
fn vault_checks_order() {
    // the signature is checked before writability
    let mut both = vec![
        account(key(6), vault_program_id(), state(vault_data_discriminator(), 1), false, false, false),
        account(key(4), key(0), vec![], false, false, false),
    ];
    assert_eq!(process_update_contents(&mut both, &5u64.to_le_bytes()), Err(ProgramError::Anchor(ErrorCode::AccountNotSigner)));
    let mut readonly = vec![
        account(key(6), vault_program_id(), state(vault_data_discriminator(), 1), false, false, false),
        account(key(4), key(0), vec![], true, false, false),
    ];
    assert_eq!(process_update_contents(&mut readonly, &5u64.to_le_bytes()), Err(ProgramError::Anchor(ErrorCode::ConstraintMut)));
    let mut only_vault = vec![vault_account(1)];
    assert_eq!(process_update_contents(&mut only_vault, &5u64.to_le_bytes()), Err(ProgramError::Anchor(ErrorCode::AccountNotEnoughKeys)));
}

fn authority() -> (Pubkey, u8) {
    let pid = anchor_lang::prelude::Pubkey::new_from_array(proxy_program_id().bytes);
    let (k, bump) = anchor_lang::prelude::Pubkey::find_program_address(&[b"controller_auth"], &pid);
    (Pubkey { bytes: k.to_bytes() }, bump)
}

#[test]
fn authority_seed_is_controller_auth() {
    assert_eq!(controller_auth_seed(), b"controller_auth".to_vec());
}

#[test]
fn proxy_signs_vault_update() {
    let (pda, bump) = authority();
    let proxy_accounts = vec![
        account(key(6), vault_program_id(), vec![], false, true, false),
        account(pda.copy(), key(0), vec![], false, false, false),
        program_account(vault_program_id()),
    ];
    let signed = process_execute_proxy_update(&proxy_accounts, &1234u64.to_le_bytes()).unwrap();
    let ix = &signed.instruction;
    assert_eq!(ix.program_id.bytes, vault_program_id().bytes);
    assert_eq!(ix.accounts.len(), 2);
    assert!(ix.accounts[0].is_writable && !ix.accounts[0].is_signer);
    assert_eq!(ix.accounts[1].pubkey.bytes, pda.bytes);
    assert!(ix.accounts[1].is_signer && !ix.accounts[1].is_writable);
    assert_eq!(VaultInstruction::decode(&ix.data), Ok(Some(VaultInstruction::UpdateContents { new_value: 1234 })));
    assert_eq!(signed.signer_seeds, vec![b"controller_auth".to_vec(), vec![bump]]);
    // the runtime accepts these seeds for the authority
    let seeds: Vec<&[u8]> = signed.signer_seeds.iter().map(|s| s.as_slice()).collect();
    let pid = anchor_lang::prelude::Pubkey::new_from_array(proxy_program_id().bytes);
    let derived = anchor_lang::prelude::Pubkey::create_program_address(&seeds, &pid).unwrap();
    assert_eq!(derived.to_bytes(), pda.bytes);
    // the vault, with the authority signed, stores the value
    let mut vault_accounts = vec![vault_account(0), account(pda, key(0), vec![], true, false, false)];
    assert_eq!(process_update_contents(&mut vault_accounts, &ix.data[8..]), Ok(()));
    assert_eq!(VaultData::try_deserialize(&vault_accounts[0].data), Ok(VaultData { data_value: 1234 }));
}

#[test]
fn proxy_refuses_other_authority() {
    let accounts = vec![
        account(key(6), vault_program_id(), vec![], false, true, false),
        account(key(3), key(0), vec![], false, false, false),
        program_account(vault_program_id()),
    ];
    assert_eq!(
        process_execute_proxy_update(&accounts, &1u64.to_le_bytes()).err(),
        Some(ProgramError::Anchor(ErrorCode::ConstraintSeeds))
    );
    let (pda, _) = authority();
    let wrong_program = vec![
        account(key(6), vault_program_id(), vec![], false, true, false),
        account(pda, key(0), vec![], false, false, false),
        program_account(engine_program_id()),
    ];
    assert_eq!(
        process_execute_proxy_update(&wrong_program, &1u64.to_le_bytes()).err(),
        Some(ProgramError::Anchor(ErrorCode::InvalidProgramId))
    );
}

#[test]
fn single_instruction_decoders() {
    let l = LeverInstruction::SwitchLever { new_rpm: 8 };
    assert_eq!(LeverInstruction::decode(&l.data()), Ok(Some(l)));
    let p = ProxyInstruction::ExecuteProxyUpdate { value: 8 };
    assert_eq!(ProxyInstruction::decode(&p.data()), Ok(Some(p)));
    assert_eq!(ProxyInstruction::decode(&l.data()), Ok(None));
    for ix in [VaultInstruction::Initialize, VaultInstruction::UpdateContents { new_value: 3 }] {
        assert_eq!(VaultInstruction::decode(&ix.data()), Ok(Some(ix)));
    }
    assert_eq!(solana_programs::cpi_lever::entry(&lever_program_id(), &l.data()), Ok(Dispatch::Program(l)));
    assert_eq!(solana_programs::cpi_secure_proxy::entry(&proxy_program_id(), &l.data()), Err(ErrorCode::InstructionFallbackNotFound));
    assert_eq!(solana_programs::cpi_secure_vault::entry(&engine_program_id(), &[]), Err(ErrorCode::DeclaredProgramIdMismatch));
    assert_eq!(solana_programs::cpi_engine::entry(&engine_program_id(), &EngineInstruction::Initialize.data()), Ok(Dispatch::Program(EngineInstruction::Initialize)));
}

fn system_program_account() -> AccountView {
    account(solana_programs::pubkey::system_program_id(), key(0xEE), vec![], false, false, true)
}

#[test]
fn engine_and_vault_initialize_plans() {
    let payer = AccountView {
        key: key(1),
        owner: solana_programs::pubkey::system_program_id(),
        lamports: 50_000_000,
        data: vec![],
        is_signer: true,
        is_writable: true,
        executable: false,
    };
    let fresh = |k: u8| AccountView {
        key: key(k),
        owner: solana_programs::pubkey::system_program_id(),
        lamports: 0,
        data: vec![],
        is_signer: true,
        is_writable: true,
        executable: false,
    };
    let accounts = vec![fresh(2), payer.with_data(vec![]), system_program_account()];
    let plan = solana_programs::cpi_engine::process_initialize(&accounts, 1_002_240).unwrap();
    assert_eq!(plan.invocations.len(), 1);
    assert_eq!(plan.invocations[0].accounts[0].pubkey.bytes, [1u8; 32]);
    assert_eq!(plan.invocations[0].accounts[1].pubkey.bytes, [2u8; 32]);
    assert_eq!(plan.invocations[0].data[20..].to_vec(), engine_program_id().bytes.to_vec());
    let stored = plan.after.unwrap();
    assert_eq!(EngineStats::try_deserialize(&stored), Ok(EngineStats { rpm: 0 }));

    let accounts = vec![fresh(3), payer.with_data(vec![]), system_program_account()];
    let plan = solana_programs::cpi_secure_vault::process_initialize(&accounts, 1_002_240).unwrap();
    assert_eq!(plan.invocations[0].data[20..].to_vec(), vault_program_id().bytes.to_vec());
    assert_eq!(VaultData::try_deserialize(&plan.after.unwrap()), Ok(VaultData { data_value: 0 }));

    // the paying user is the second account and must sign
    let mut unsigned = payer.with_data(vec![]);
    unsigned.is_signer = false;
    let accounts = vec![fresh(3), unsigned, system_program_account()];
    assert_eq!(
        solana_programs::cpi_secure_vault::process_initialize(&accounts, 1).err(),
        Some(ProgramError::Anchor(ErrorCode::AccountNotSigner))
    );
    // a readonly payer is refused once the account exists
    let mut readonly = payer.with_data(vec![]);
    readonly.is_writable = false;
    let accounts = vec![fresh(3), readonly, system_program_account()];
    let plan = solana_programs::cpi_engine::process_initialize(&accounts, 1).unwrap();
    assert_eq!(plan.after, Err(ProgramError::Anchor(ErrorCode::ConstraintMut)));
}
