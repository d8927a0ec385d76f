//! The lever program: receives an order and hands it, unchanged, to the
//! engine program as `set_rpm` (a cross-program invocation without extra
//! signatures).
use vstd::prelude::*;
use vstd::bytes::spec_u64_to_le_bytes;
use crate::account::{
    Dispatch, framework_dispatch, spec_framework_dispatch,
    check_declared_id,
    AccountMeta, AccountView, Instruction, InstructionSpec, check_mut, check_program, meta,
    spec_check_program,
};
use crate::codec::{has_prefix, starts_with, instruction_data_u64, read_u64_arg, spec_read_u64_arg};
use crate::cpi_engine::{
    EngineInstruction, EngineStats, engine_program_id, law_engine_instruction_roundtrip, law_set_rpm_stores,
    set_rpm_discriminator, spec_decode_engine_instruction,
    spec_engine_program_id, spec_load_engine_stats, spec_process_set_rpm, spec_set_rpm_accounts,
    spec_set_rpm_discriminator,
};
use crate::error::{ErrorCode, ProgramError};
use crate::pubkey::Pubkey;

verus! {

/// The `set_rpm` invocation of the engine program `program` on the engine
/// account `engine_account`.
pub open spec fn spec_set_rpm_invocation(program: Seq<u8>, engine_account: Seq<u8>, new_rpm: u64) -> InstructionSpec {
    InstructionSpec {
        program_id: program,
        accounts: seq![meta(engine_account, false, true)],
        data: spec_set_rpm_discriminator() + spec_u64_to_le_bytes(new_rpm),
    }
}

/// The accounts of `switch_lever`, once checked: the engine account (first)
/// and the engine program (second).
pub struct SwitchLever {
    pub engine_account: Pubkey,
    pub engine_program: Pubkey,
}

/// Checking the accounts of `switch_lever`: two accounts, the second being the
/// engine program, the first writable (its contents are left to the engine).
pub open spec fn spec_switch_lever_accounts(accounts: Seq<AccountView>) -> Result<(), ErrorCode> {
    if accounts.len() < 2 {
        Err(ErrorCode::AccountNotEnoughKeys)
    } else if spec_check_program(accounts[1], spec_engine_program_id()) is Err {
        spec_check_program(accounts[1], spec_engine_program_id())
    } else if !accounts[0].is_writable {
        Err(ErrorCode::ConstraintMut)
    } else {
        Ok(())
    }
}

impl SwitchLever {
    pub fn try_accounts(accounts: &Vec<AccountView>) -> (r: Result<SwitchLever, ErrorCode>)
        ensures
            match spec_switch_lever_accounts(accounts@) {
                Ok(_) => r matches Ok(x) && x.engine_account@ == accounts@[0].key@
                    && x.engine_program@ == accounts@[1].key@,
                Err(e) => r matches Err(e2) && e2 == e,
            },
    {
        if accounts.len() < 2 {
            return Err(ErrorCode::AccountNotEnoughKeys);
        }
        let engine = engine_program_id();
        check_program(&accounts[1], &engine)?;
        check_mut(&accounts[0])?;
        Ok(SwitchLever { engine_account: accounts[0].key.copy(), engine_program: accounts[1].key.copy() })
    }
}

/// Builds the engine's `set_rpm` instruction carrying `new_rpm` for the
/// checked accounts: the invocation the lever makes.
pub fn switch_lever(accounts: &SwitchLever, new_rpm: u64) -> (ix: Instruction)
    ensures
        ix@ == spec_set_rpm_invocation(accounts.engine_program@, accounts.engine_account@, new_rpm),
{
    let disc = set_rpm_discriminator();
    let data = instruction_data_u64(&disc, new_rpm);
    let mut metas: Vec<AccountMeta> = Vec::new();
    metas.push(AccountMeta::new(&accounts.engine_account, false));
    let ix = Instruction { program_id: accounts.engine_program.copy(), accounts: metas, data };
    assert(ix@.accounts =~= seq![meta(accounts.engine_account@, false, true)]);
    ix
}

/// What `switch_lever` does, given the bytes after the discriminator: the
/// invocation of the engine it makes, or why it fails.
pub open spec fn spec_process_switch_lever(accounts: Seq<AccountView>, args: Seq<u8>) -> Result<InstructionSpec, ProgramError> {
    match spec_read_u64_arg(args) {
        Err(e) => Err(ProgramError::Anchor(e)),
        Ok(v) => match spec_switch_lever_accounts(accounts) {
            Err(e) => Err(ProgramError::Anchor(e)),
            Ok(_) => Ok(spec_set_rpm_invocation(accounts[1].key@, accounts[0].key@, v)),
        },
    }
}

/// Runs `switch_lever`: reads the argument, checks the accounts, and returns
/// the invocation of the engine to make.
pub fn process_switch_lever(accounts: &Vec<AccountView>, args: &[u8]) -> (r: Result<Instruction, ProgramError>)
    ensures
        match spec_process_switch_lever(accounts@, args@) {
            Ok(i) => r matches Ok(ix) && ix@ == i,
            Err(e) => r matches Err(e2) && e2 == e,
        },
{
    let new_rpm = match read_u64_arg(args) {
        Ok(v) => v,
        Err(e) => return Err(ProgramError::Anchor(e)),
    };
    let checked = match SwitchLever::try_accounts(accounts) {
        Ok(c) => c,
        Err(e) => return Err(ProgramError::Anchor(e)),
    };
    Ok(switch_lever(&checked, new_rpm))
}


/// What the lever asks, the engine does: when `switch_lever` accepts its
/// accounts and argument `v`, it invokes the engine program on the engine
/// account it was given (writable, unsigned) with data that the engine reads
/// as `set_rpm(v)`; and the engine, handed an accepted engine account with
/// that key, runs it and ends holding `v` revolutions.
pub proof fn law_lever_sets_engine_rpm(lever_accounts: Seq<AccountView>, args: Seq<u8>, engine_accounts: Seq<AccountView>)
    requires
        spec_process_switch_lever(lever_accounts, args) is Ok,
        spec_set_rpm_accounts(engine_accounts) is Ok,
        engine_accounts[0].key@ == lever_accounts[0].key@,
    ensures
        ({
            let i = spec_process_switch_lever(lever_accounts, args)->Ok_0;
            let v = spec_read_u64_arg(args)->Ok_0;
            &&& i.program_id == spec_engine_program_id()
            &&& i.accounts == seq![meta(engine_accounts[0].key@, false, true)]
            &&& spec_decode_engine_instruction(i.data) == Ok::<Option<EngineInstruction>, ErrorCode>(
                Some(EngineInstruction::SetRpm { new_rpm: v }))
            &&& spec_process_set_rpm(engine_accounts, i.data.subrange(8, i.data.len() as int)) matches Ok(d)
            &&& spec_load_engine_stats(d) == Ok::<EngineStats, ErrorCode>(EngineStats { rpm: v })
        }),
{
    let i = spec_process_switch_lever(lever_accounts, args)->Ok_0;
    let v = spec_read_u64_arg(args)->Ok_0;
    law_engine_instruction_roundtrip(EngineInstruction::SetRpm { new_rpm: v });
    assert(i.data.subrange(8, i.data.len() as int) =~= spec_u64_to_le_bytes(v));
    law_set_rpm_stores(engine_accounts, v);
}


/// `2XAFBGfTy3NXB33XAh26MQwSeLo1Ku8tErHvjrMdWxKN`
pub open spec fn spec_lever_program_id() -> Seq<u8> {
    seq![22u8, 149, 144, 92, 128, 98, 254, 173, 137, 158, 5, 244, 38, 41, 161, 248, 43, 95, 220, 149, 71, 223, 219, 34, 215, 196, 124, 209, 110, 142, 240, 109]
}

pub fn lever_program_id() -> (k: Pubkey)
    ensures
        k@ == spec_lever_program_id(),
{
    let k = Pubkey { bytes: [22, 149, 144, 92, 128, 98, 254, 173, 137, 158, 5, 244, 38, 41, 161, 248, 43, 95, 220, 149, 71, 223, 219, 34, 215, 196, 124, 209, 110, 142, 240, 109] };
    assert(k@ =~= spec_lever_program_id());
    k
}

/// First eight bytes of sha256("global:switch_lever").
pub open spec fn spec_switch_lever_discriminator() -> Seq<u8> {
    seq![111u8, 46, 212, 81, 104, 40, 227, 91]
}

/// The lever program's instruction.
#[derive(Debug, Clone, Copy, PartialEq, Eq, Structural)]
pub enum LeverInstruction {
    SwitchLever { new_rpm: u64 },
}

pub open spec fn spec_cpi_lever_instruction_data(ix: LeverInstruction) -> Seq<u8> {
    match ix {
        LeverInstruction::SwitchLever { new_rpm } => spec_switch_lever_discriminator() + spec_u64_to_le_bytes(new_rpm),
    }
}

/// Which instruction `data` selects and with which argument; `Ok(None)` for
/// data that selects none of this program's instructions.
pub open spec fn spec_decode_cpi_lever_instruction(data: Seq<u8>) -> Result<Option<LeverInstruction>, ErrorCode> {
    if starts_with(data, spec_switch_lever_discriminator()) {
        match spec_read_u64_arg(data.subrange(8, data.len() as int)) {
            Ok(v) => Ok(Some(LeverInstruction::SwitchLever { new_rpm: v })),
            Err(e) => Err(e),
        }
    } else {
        Ok(None)
    }
}

impl LeverInstruction {
    pub fn data(&self) -> (d: Vec<u8>)
        ensures
            d@ == spec_cpi_lever_instruction_data(*self),
    {
        match self {
            LeverInstruction::SwitchLever { new_rpm } => {
                let disc: [u8; 8] = [111, 46, 212, 81, 104, 40, 227, 91];
                assert(disc@ =~= spec_switch_lever_discriminator());
                instruction_data_u64(&disc, *new_rpm)
            },
        }
    }

    pub fn decode(data: &[u8]) -> (r: Result<Option<LeverInstruction>, ErrorCode>)
        ensures
            r == spec_decode_cpi_lever_instruction(data@),
    {
        let disc: [u8; 8] = [111, 46, 212, 81, 104, 40, 227, 91];
        assert(disc@ =~= spec_switch_lever_discriminator());
        if has_prefix(data, &disc) {
            let args = vstd::slice::slice_subrange(data, 8, data.len());
            let v = read_u64_arg(args)?;
            Ok(Some(LeverInstruction::SwitchLever { new_rpm: v }))
        } else {
            Ok(None)
        }
    }
}

/// The data of the instruction selects it, with its argument.
pub proof fn law_cpi_lever_instruction_roundtrip(ix: LeverInstruction)
    ensures
        spec_decode_cpi_lever_instruction(spec_cpi_lever_instruction_data(ix)) == Ok::<Option<LeverInstruction>, ErrorCode>(Some(ix)),
{
    vstd::bytes::lemma_auto_spec_u64_to_from_le_bytes();
    let d = spec_cpi_lever_instruction_data(ix);
    match ix {
        LeverInstruction::SwitchLever { new_rpm } => {
            assert(d.subrange(0, 8) =~= spec_switch_lever_discriminator());
            assert(d.subrange(8, d.len() as int).subrange(0, 8) =~= spec_u64_to_le_bytes(new_rpm));
        },
    }
}

/// Which instruction the program runs for `data`, once it has checked that it
/// runs under its declared address; data that selects none of its
/// instructions goes to the framework's answer (`spec_framework_dispatch`).
pub open spec fn spec_entry(program_id: Seq<u8>, data: Seq<u8>) -> Result<Dispatch<LeverInstruction>, ErrorCode> {
    if program_id != spec_lever_program_id() {
        Err(ErrorCode::DeclaredProgramIdMismatch)
    } else {
        match spec_decode_cpi_lever_instruction(data) {
            Ok(Some(ix)) => Ok(Dispatch::Program(ix)),
            Ok(None) => spec_framework_dispatch(data),
            Err(e) => Err(e),
        }
    }
}

pub fn entry(program_id: &Pubkey, data: &[u8]) -> (r: Result<Dispatch<LeverInstruction>, ErrorCode>)
    ensures
        r == spec_entry(program_id@, data@),
{
    let id = lever_program_id();
    check_declared_id(program_id, &id)?;
    match LeverInstruction::decode(data)? {
        Some(ix) => Ok(Dispatch::Program(ix)),
        None => framework_dispatch(data),
    }
}

/// `switch_lever` hands the order to the engine unchanged. It is accepted
/// exactly when the argument has its eight bytes, the second account is the
/// executable engine program and the first is writable (whatever it holds);
/// it then asks the engine program to run `set_rpm` with exactly those eight
/// bytes on the first account, writable and unsigned.
pub proof fn law_switch_lever_request(accounts: Seq<AccountView>, args: Seq<u8>)
    ensures
        (spec_process_switch_lever(accounts, args) is Ok) == (args.len() >= 8 && accounts.len() >= 2
            && accounts[1].key@ == spec_engine_program_id() && accounts[1].executable
            && accounts[0].is_writable),
        spec_process_switch_lever(accounts, args) is Ok ==> spec_process_switch_lever(accounts, args)->Ok_0 == (InstructionSpec {
            program_id: spec_engine_program_id(),
            accounts: seq![meta(accounts[0].key@, false, true)],
            data: seq![188u8, 19, 232, 122, 137, 175, 242, 125] + args.subrange(0, 8),
        }),
{
    if args.len() >= 8 {
        crate::codec::lemma_u64_arg_bytes(args);
    }
}

} // verus!
