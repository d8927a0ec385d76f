//! The engine program: an account holding revolutions per minute, set by
//! anyone who can write the account, directly or through another program.
use vstd::prelude::*;
use crate::account::{InstructionSpec, meta};
use crate::pubkey::spec_system_program_id;
use vstd::bytes::spec_u64_to_le_bytes;
use crate::account::{
    Dispatch, framework_dispatch, spec_framework_dispatch,
    check_declared_id,AccountView, check_mut, check_owner, data_replaced, set_data, spec_check_owner};
use crate::codec::{
    account_bytes, has_prefix, instruction_data, instruction_data_u64, read_u64_account,
    read_u64_arg, spec_read_u64_account, spec_read_u64_arg, starts_with, write_u64_account,
};
use crate::error::{ErrorCode, ProgramError};
use crate::init::{InitPlan, InitPlanSpec, check_init_accounts, plan_init, spec_init_accounts, spec_process_init};
use crate::pubkey::Pubkey;

verus! {

/// `HdD4VXi25uuvN9QnQXmAjRix9ELk7HmWEm9Xq5qdk9pE`
pub open spec fn spec_engine_program_id() -> Seq<u8> {
    seq![
        247u8, 1, 137, 85, 206, 81, 204, 143, 117, 135, 15, 132, 72, 125, 160, 129,
        105, 228, 86, 225, 189, 83, 63, 234, 140, 181, 142, 120, 46, 211, 163, 203,
    ]
}

pub fn engine_program_id() -> (k: Pubkey)
    ensures
        k@ == spec_engine_program_id(),
{
    let k = Pubkey {
        bytes: [
            247, 1, 137, 85, 206, 81, 204, 143, 117, 135, 15, 132, 72, 125, 160, 129,
            105, 228, 86, 225, 189, 83, 63, 234, 140, 181, 142, 120, 46, 211, 163, 203,
        ],
    };
    assert(k@ =~= spec_engine_program_id());
    k
}

/// First eight bytes of sha256("account:EngineStats").
pub open spec fn spec_engine_stats_discriminator() -> Seq<u8> {
    seq![13u8, 211, 197, 168, 147, 76, 254, 37]
}

pub fn engine_stats_discriminator() -> (d: [u8; 8])
    ensures
        d@ == spec_engine_stats_discriminator(),
{
    let d: [u8; 8] = [13, 211, 197, 168, 147, 76, 254, 37];
    assert(d@ =~= spec_engine_stats_discriminator());
    d
}

/// First eight bytes of sha256("global:initialize").
pub open spec fn spec_initialize_discriminator() -> Seq<u8> {
    seq![175u8, 175, 109, 31, 13, 152, 155, 237]
}

/// First eight bytes of sha256("global:set_rpm").
pub open spec fn spec_set_rpm_discriminator() -> Seq<u8> {
    seq![188u8, 19, 232, 122, 137, 175, 242, 125]
}

pub fn set_rpm_discriminator() -> (d: [u8; 8])
    ensures
        d@ == spec_set_rpm_discriminator(),
{
    let d: [u8; 8] = [188, 19, 232, 122, 137, 175, 242, 125];
    assert(d@ =~= spec_set_rpm_discriminator());
    d
}

/// Bytes an engine account takes: discriminator and one `u64`.
pub const ENGINE_STATS_SPACE: u64 = 16;

/// The state of an engine account.
#[derive(Debug, Clone, Copy, PartialEq, Eq, Structural)]
pub struct EngineStats {
    pub rpm: u64,
}

pub open spec fn spec_load_engine_stats(data: Seq<u8>) -> Result<EngineStats, ErrorCode> {
    match spec_read_u64_account(data, spec_engine_stats_discriminator()) {
        Ok(v) => Ok(EngineStats { rpm: v }),
        Err(e) => Err(e),
    }
}

impl EngineStats {
    pub fn try_deserialize(data: &[u8]) -> (r: Result<EngineStats, ErrorCode>)
        ensures
            r == spec_load_engine_stats(data@),
    {
        let disc = engine_stats_discriminator();
        match read_u64_account(data, &disc) {
            Ok(v) => Ok(EngineStats { rpm: v }),
            Err(e) => Err(e),
        }
    }

    /// Writes the state at the start of account data; a buffer shorter than
    /// `ENGINE_STATS_SPACE` is refused and left as it was.
    pub fn try_serialize(&self, data: &mut Vec<u8>) -> (r: Result<(), ErrorCode>)
        ensures
            old(data)@.len() < 16 ==> r == Err::<(), ErrorCode>(ErrorCode::AccountDidNotSerialize)
                && final(data)@ == old(data)@,
            old(data)@.len() >= 16 ==> r is Ok && final(data)@ == account_bytes(
                spec_engine_stats_discriminator(),
                self.rpm,
            ) + old(data)@.subrange(16, old(data)@.len() as int),
    {
        let disc = engine_stats_discriminator();
        write_u64_account(data, &disc, self.rpm)
    }
}

/// Sets the revolutions of a new engine to zero.
pub fn initialize(engine_account: &mut EngineStats) -> (r: Result<(), ProgramError>)
    ensures
        r is Ok,
        final(engine_account).rpm == 0,
{
    engine_account.rpm = 0;
    Ok(())
}

/// Sets the revolutions to `new_rpm`, whatever they were.
pub fn set_rpm(engine_account: &mut EngineStats, new_rpm: u64) -> (r: Result<(), ProgramError>)
    ensures
        r is Ok,
        final(engine_account).rpm == new_rpm,
{
    engine_account.rpm = new_rpm;
    Ok(())
}

/// The engine program's instructions.
#[derive(Debug, Clone, Copy, PartialEq, Eq, Structural)]
pub enum EngineInstruction {
    Initialize,
    SetRpm { new_rpm: u64 },
}

pub open spec fn spec_engine_instruction_data(ix: EngineInstruction) -> Seq<u8> {
    match ix {
        EngineInstruction::Initialize => spec_initialize_discriminator(),
        EngineInstruction::SetRpm { new_rpm } => spec_set_rpm_discriminator() + spec_u64_to_le_bytes(new_rpm),
    }
}

/// Which instruction `data` selects and with which argument; `Ok(None)` for
/// data that selects none of this program's instructions.
pub open spec fn spec_decode_engine_instruction(data: Seq<u8>) -> Result<Option<EngineInstruction>, ErrorCode> {
    if starts_with(data, spec_initialize_discriminator()) {
        Ok(Some(EngineInstruction::Initialize))
    } else if starts_with(data, spec_set_rpm_discriminator()) {
        match spec_read_u64_arg(data.subrange(8, data.len() as int)) {
            Ok(v) => Ok(Some(EngineInstruction::SetRpm { new_rpm: v })),
            Err(e) => Err(e),
        }
    } else {
        Ok(None)
    }
}

impl EngineInstruction {
    pub fn data(&self) -> (d: Vec<u8>)
        ensures
            d@ == spec_engine_instruction_data(*self),
    {
        match self {
            EngineInstruction::Initialize => {
                let disc: [u8; 8] = [175, 175, 109, 31, 13, 152, 155, 237];
                assert(disc@ =~= spec_initialize_discriminator());
                instruction_data(&disc)
            },
            EngineInstruction::SetRpm { new_rpm } => {
                let disc = set_rpm_discriminator();
                instruction_data_u64(&disc, *new_rpm)
            },
        }
    }

    pub fn decode(data: &[u8]) -> (r: Result<Option<EngineInstruction>, ErrorCode>)
        ensures
            r == spec_decode_engine_instruction(data@),
    {
        let init: [u8; 8] = [175, 175, 109, 31, 13, 152, 155, 237];
        assert(init@ =~= spec_initialize_discriminator());
        let set = set_rpm_discriminator();
        if has_prefix(data, &init) {
            Ok(Some(EngineInstruction::Initialize))
        } else if has_prefix(data, &set) {
            let args = vstd::slice::slice_subrange(data, 8, data.len());
            let v = read_u64_arg(args)?;
            Ok(Some(EngineInstruction::SetRpm { new_rpm: v }))
        } else {
            Ok(None)
        }
    }
}

/// The accounts of `set_rpm`, once loaded: the engine.
pub struct SetRpm {
    pub engine_account: EngineStats,
}

/// Loading the accounts of `set_rpm`: the first account must be an existing
/// engine of this program and writable.
pub open spec fn spec_set_rpm_accounts(accounts: Seq<AccountView>) -> Result<EngineStats, ErrorCode> {
    if accounts.len() < 1 {
        Err(ErrorCode::AccountNotEnoughKeys)
    } else {
        let a = accounts[0];
        match spec_check_owner(a, spec_engine_program_id()) {
            Err(e) => Err(e),
            Ok(_) => match spec_load_engine_stats(a.data@) {
                Err(e) => Err(e),
                Ok(s) => if !a.is_writable {
                    Err(ErrorCode::ConstraintMut)
                } else {
                    Ok(s)
                },
            },
        }
    }
}

impl SetRpm {
    pub fn try_accounts(accounts: &Vec<AccountView>) -> (r: Result<SetRpm, ErrorCode>)
        ensures
            match spec_set_rpm_accounts(accounts@) {
                Ok(s) => r matches Ok(x) && x.engine_account == s,
                Err(e) => r matches Err(e2) && e2 == e,
            },
    {
        if accounts.len() < 1 {
            return Err(ErrorCode::AccountNotEnoughKeys);
        }
        let a = &accounts[0];
        let id = engine_program_id();
        check_owner(a, &id)?;
        let engine_account = EngineStats::try_deserialize(a.data.as_slice())?;
        check_mut(a)?;
        Ok(SetRpm { engine_account })
    }
}

/// What `set_rpm` does, given the bytes after the discriminator: the new data
/// of the engine account, or why it fails.
pub open spec fn spec_process_set_rpm(accounts: Seq<AccountView>, args: Seq<u8>) -> Result<Seq<u8>, ProgramError> {
    match spec_read_u64_arg(args) {
        Err(e) => Err(ProgramError::Anchor(e)),
        Ok(v) => match spec_set_rpm_accounts(accounts) {
            Err(e) => Err(ProgramError::Anchor(e)),
            Ok(_) => Ok(account_bytes(spec_engine_stats_discriminator(), v)
                + accounts[0].data@.subrange(16, accounts[0].data@.len() as int)),
        },
    }
}

/// Runs `set_rpm`: reads the argument, loads the engine, sets it, and stores
/// it back. On an error nothing changes.
pub fn process_set_rpm(accounts: &mut Vec<AccountView>, args: &[u8]) -> (r: Result<(), ProgramError>)
    ensures
        match spec_process_set_rpm(old(accounts)@, args@) {
            Ok(d) => r is Ok && data_replaced(old(accounts)@, final(accounts)@, 0, d),
            Err(e) => r == Err::<(), ProgramError>(e) && final(accounts)@ == old(accounts)@,
        },
{
    let new_rpm = match read_u64_arg(args) {
        Ok(v) => v,
        Err(e) => return Err(ProgramError::Anchor(e)),
    };
    let mut ix = match SetRpm::try_accounts(accounts) {
        Ok(ix) => ix,
        Err(e) => return Err(ProgramError::Anchor(e)),
    };
    set_rpm(&mut ix.engine_account, new_rpm)?;
    let mut data = accounts[0].data.clone();
    match ix.engine_account.try_serialize(&mut data) {
        Ok(()) => {},
        Err(e) => return Err(ProgramError::Anchor(e)),
    }
    set_data(accounts, 0, data);
    Ok(())
}


/// What `initialize` does: its accounts are the new engine account (signer,
/// writable), the paying user (signer, writable) and the system program.
/// `rent_minimum` is the rent-exempt minimum for `ENGINE_STATS_SPACE` bytes.
pub open spec fn spec_process_initialize(accounts: Seq<AccountView>, rent_minimum: u64) -> Result<InitPlanSpec, ProgramError> {
    spec_process_init(accounts, 1, rent_minimum, spec_engine_program_id(), spec_engine_stats_discriminator(), 0)
}

/// The accounts of `initialize`, once checked: the new engine account
/// (first) and the paying user (second); the third is the system program.
pub struct Initialize {
    pub engine_account: Pubkey,
    pub user: Pubkey,
}

impl Initialize {
    pub fn try_accounts(accounts: &Vec<AccountView>) -> (r: Result<Initialize, ErrorCode>)
        ensures
            match spec_init_accounts(accounts@, 1) {
                Ok(_) => r matches Ok(x) && x.user@ == accounts@[1].key@
                    && x.engine_account@ == accounts@[0].key@,
                Err(e) => r matches Err(e2) && e2 == e,
            },
    {
        check_init_accounts(accounts, 1)?;
        Ok(Initialize { engine_account: accounts[0].key.copy(), user: accounts[1].key.copy() })
    }
}

/// Runs the initializing instruction: checks the accounts, plans the creation
/// of the new account, and ends with its field at zero.
pub fn process_initialize(accounts: &Vec<AccountView>, rent_minimum: u64) -> (r: Result<InitPlan, ProgramError>)
    ensures
        match spec_process_initialize(accounts@, rent_minimum) {
            Ok(p) => r matches Ok(plan) && plan@ == p,
            Err(e) => r matches Err(e2) && e2 == e,
        },
{
    match Initialize::try_accounts(accounts) {
        Ok(_) => {},
        Err(e) => return Err(ProgramError::Anchor(e)),
    }
    // The handler's effect on the freshly created (zeroed) engine.
    let mut engine = EngineStats { rpm: 0 };
    initialize(&mut engine)?;
    let value = engine.rpm;
    let id = engine_program_id();
    let disc = engine_stats_discriminator();
    plan_init(&accounts[1], &accounts[0], rent_minimum, &id, &disc, value)
}


/// The data of an instruction selects that instruction, with its argument.
pub proof fn law_engine_instruction_roundtrip(ix: EngineInstruction)
    ensures
        spec_decode_engine_instruction(spec_engine_instruction_data(ix)) == Ok::<Option<EngineInstruction>, ErrorCode>(Some(ix)),
{
    vstd::bytes::lemma_auto_spec_u64_to_from_le_bytes();
    let d = spec_engine_instruction_data(ix);
    match ix {
        EngineInstruction::Initialize => {
            assert(d.subrange(0, 8) =~= d);
        },
        EngineInstruction::SetRpm { new_rpm } => {
            assert(d.subrange(0, 8) =~= spec_set_rpm_discriminator());
            assert(d.subrange(0, 8)[0] != spec_initialize_discriminator()[0]);
            assert(d.subrange(8, d.len() as int).subrange(0, 8) =~= spec_u64_to_le_bytes(new_rpm));
        },
    }
}

/// A stored engine loads back as the same engine, whatever follows it.
pub proof fn law_engine_load_after_store(s: EngineStats, rest: Seq<u8>)
    ensures
        spec_load_engine_stats(account_bytes(spec_engine_stats_discriminator(), s.rpm) + rest) == Ok::<EngineStats, ErrorCode>(s),
{
    crate::codec::lemma_read_after_write(spec_engine_stats_discriminator(), s.rpm, rest);
}

/// On an accepted engine account, `set_rpm` with argument `v` succeeds and
/// the account then loads with `v` revolutions, whatever it held before.
pub proof fn law_set_rpm_stores(accounts: Seq<AccountView>, v: u64)
    requires
        spec_set_rpm_accounts(accounts) is Ok,
    ensures
        spec_process_set_rpm(accounts, spec_u64_to_le_bytes(v)) matches Ok(d)
            && spec_load_engine_stats(d) == Ok::<EngineStats, ErrorCode>(EngineStats { rpm: v }),
{
    vstd::bytes::lemma_auto_spec_u64_to_from_le_bytes();
    assert(spec_u64_to_le_bytes(v).subrange(0, 8) =~= spec_u64_to_le_bytes(v));
    let rest = accounts[0].data@.subrange(16, accounts[0].data@.len() as int);
    law_engine_load_after_store(EngineStats { rpm: v }, rest);
}


/// An engine created by `initialize` loads with zero revolutions.
pub proof fn law_initialized_engine_is_zero(accounts: Seq<AccountView>, rent_minimum: u64)
    requires
        spec_process_initialize(accounts, rent_minimum) matches Ok(p) && p.after is Ok,
    ensures
        spec_process_initialize(accounts, rent_minimum) matches Ok(p)
            && p.after matches Ok(d) && spec_load_engine_stats(d) == Ok::<EngineStats, ErrorCode>(EngineStats { rpm: 0 }),
{
    law_engine_load_after_store(EngineStats { rpm: 0 }, Seq::<u8>::empty());
    assert(account_bytes(spec_engine_stats_discriminator(), 0) + Seq::<u8>::empty() =~= account_bytes(spec_engine_stats_discriminator(), 0));
}


/// Which instruction the program runs for `data`, once it has checked that it
/// runs under its declared address; data that selects none of its
/// instructions goes to the framework's answer (`spec_framework_dispatch`).
pub open spec fn spec_entry(program_id: Seq<u8>, data: Seq<u8>) -> Result<Dispatch<EngineInstruction>, ErrorCode> {
    if program_id != spec_engine_program_id() {
        Err(ErrorCode::DeclaredProgramIdMismatch)
    } else {
        match spec_decode_engine_instruction(data) {
            Ok(Some(ix)) => Ok(Dispatch::Program(ix)),
            Ok(None) => spec_framework_dispatch(data),
            Err(e) => Err(e),
        }
    }
}

pub fn entry(program_id: &Pubkey, data: &[u8]) -> (r: Result<Dispatch<EngineInstruction>, ErrorCode>)
    ensures
        r == spec_entry(program_id@, data@),
{
    let id = engine_program_id();
    check_declared_id(program_id, &id)?;
    match EngineInstruction::decode(data)? {
        Some(ix) => Ok(Dispatch::Program(ix)),
        None => framework_dispatch(data),
    }
}

/// `initialize` creates the engine account (first) paid by the user
/// (second), once the user has signed and the third account is the executable
/// system program. An engine account without lamports is created by one
/// `CreateAccount` from the user, funded with exactly `rent_minimum` lamports,
/// 16 bytes, owned by the engine program. One that holds `l` lamports is
/// topped up by a `Transfer` of `rent_minimum - l` from the user (only where
/// it lacks them), then given 16 bytes and handed to the engine program; the
/// user itself is refused as the new account. The account then holds the
/// engine's discriminator and zero revolutions, exactly when it is writable
/// and has signed and the user is writable.
pub proof fn law_initialize_engine_creates_account(accounts: Seq<AccountView>, rent_minimum: u64)
    requires
        accounts.len() >= 3,
        accounts[1].is_signer,
        accounts[2].key@ == spec_system_program_id(),
        accounts[2].executable,
    ensures
        accounts[0].lamports == 0 ==> (spec_process_initialize(accounts, rent_minimum) matches Ok(p) && p.invocations == seq![
            InstructionSpec {
                program_id: spec_system_program_id(),
                accounts: seq![meta(accounts[1].key@, true, true), meta(accounts[0].key@, true, true)],
                data: seq![0u8, 0, 0, 0] + spec_u64_to_le_bytes(rent_minimum) + spec_u64_to_le_bytes(16)
                    + spec_engine_program_id(),
            },
        ]),
        accounts[0].lamports > 0 && accounts[0].key@ != accounts[1].key@ ==> (spec_process_initialize(accounts, rent_minimum) matches Ok(p)
            && p.invocations.len() >= 2
            && p.invocations[p.invocations.len() - 2] == (InstructionSpec {
                program_id: spec_system_program_id(),
                accounts: seq![meta(accounts[0].key@, true, true)],
                data: seq![8u8, 0, 0, 0] + spec_u64_to_le_bytes(16),
            })
            && p.invocations[p.invocations.len() - 1] == (InstructionSpec {
                program_id: spec_system_program_id(),
                accounts: seq![meta(accounts[0].key@, true, true)],
                data: seq![1u8, 0, 0, 0] + spec_engine_program_id(),
            })
            && (rent_minimum > accounts[0].lamports ==> p.invocations.len() == 3 && p.invocations[0] == (InstructionSpec {
                program_id: spec_system_program_id(),
                accounts: seq![meta(accounts[1].key@, true, true), meta(accounts[0].key@, false, true)],
                data: seq![2u8, 0, 0, 0] + spec_u64_to_le_bytes((rent_minimum - accounts[0].lamports) as u64),
            }))
            && (rent_minimum <= accounts[0].lamports ==> p.invocations.len() == 2)),
        accounts[0].lamports > 0 && accounts[0].key@ == accounts[1].key@ ==> spec_process_initialize(accounts, rent_minimum)
            == Err::<InitPlanSpec, ProgramError>(ProgramError::Anchor(ErrorCode::TryingToInitPayerAsProgramAccount)),
        spec_process_initialize(accounts, rent_minimum) matches Ok(p) ==> ((p.after is Ok) == (accounts[0].is_writable
            && accounts[0].is_signer && accounts[1].is_writable)),
        spec_process_initialize(accounts, rent_minimum) matches Ok(p) ==> (p.after is Ok ==> (p.after == Ok::<Seq<u8>, ProgramError>(
            spec_engine_stats_discriminator() + spec_u64_to_le_bytes(0)) && spec_load_engine_stats(p.after->Ok_0) == Ok::<EngineStats, ErrorCode>(EngineStats { rpm: 0 }))),
{
    crate::init::law_init_plan(accounts, 1, rent_minimum, spec_engine_program_id(), spec_engine_stats_discriminator(), 0);
    law_engine_load_after_store(EngineStats { rpm: 0 }, Seq::<u8>::empty());
    assert(account_bytes(spec_engine_stats_discriminator(), 0) + Seq::<u8>::empty() =~= spec_engine_stats_discriminator() + spec_u64_to_le_bytes(0));
}

/// `set_rpm` overwrites the revolutions of an existing engine with the eight
/// argument bytes and nothing else. It is accepted exactly when the argument
/// has its eight bytes and the first account is writable, owned by the engine
/// program and holds at least 16 bytes that begin with the engine's
/// discriminator, whatever it held before; the account then keeps its first
/// eight bytes and everything after the sixteenth, and bytes 8 to 16 become
/// the argument's.
pub proof fn law_set_rpm_request(accounts: Seq<AccountView>, args: Seq<u8>)
    ensures
        (spec_process_set_rpm(accounts, args) is Ok) == (args.len() >= 8 && accounts.len() >= 1
            && accounts[0].owner@ == spec_engine_program_id() && accounts[0].is_writable
            && accounts[0].data@.len() >= 16
            && accounts[0].data@.subrange(0, 8) == seq![13u8, 211, 197, 168, 147, 76, 254, 37]),
        spec_process_set_rpm(accounts, args) is Ok ==> spec_process_set_rpm(accounts, args)->Ok_0
            == accounts[0].data@.subrange(0, 8) + args.subrange(0, 8)
                + accounts[0].data@.subrange(16, accounts[0].data@.len() as int),
{
    assert(spec_engine_program_id()[0] != spec_system_program_id()[0]);
    if args.len() >= 8 {
        crate::codec::lemma_u64_arg_bytes(args);
    }
}

} // verus!
