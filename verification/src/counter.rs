//! The counter program: an account holding a count that only goes up, one at
//! a time, and refuses to wrap around.
use vstd::prelude::*;
use vstd::bytes::spec_u64_to_le_bytes;
use crate::account::{InstructionSpec, meta};
use crate::pubkey::spec_system_program_id;
use crate::account::{
    Dispatch, framework_dispatch, spec_framework_dispatch,
    AccountView, check_declared_id, check_mut, check_owner, data_replaced, set_data, spec_check_owner,
};
use crate::codec::{
    account_bytes, has_prefix, instruction_data, read_u64_account, spec_read_u64_account,
    starts_with, write_u64_account,
};
use crate::error::{ErrorCode, MyError, ProgramError};
use crate::init::{InitPlan, InitPlanSpec, check_init_accounts, plan_init, spec_init_accounts, spec_process_init};
use crate::pubkey::Pubkey;

verus! {

/// `7XBBYkPXKXA7bMC3eJwgmYKmmjqmGrTs15FFmJPELWau`
pub open spec fn spec_counter_program_id() -> Seq<u8> {
    seq![
        96u8, 225, 14, 248, 247, 139, 252, 135, 95, 64, 88, 189, 241, 40, 210, 200,
        157, 240, 217, 24, 50, 116, 48, 134, 249, 36, 66, 47, 114, 168, 125, 138,
    ]
}

pub fn counter_program_id() -> (k: Pubkey)
    ensures
        k@ == spec_counter_program_id(),
{
    let k = Pubkey {
        bytes: [
            96, 225, 14, 248, 247, 139, 252, 135, 95, 64, 88, 189, 241, 40, 210, 200,
            157, 240, 217, 24, 50, 116, 48, 134, 249, 36, 66, 47, 114, 168, 125, 138,
        ],
    };
    assert(k@ =~= spec_counter_program_id());
    k
}

/// First eight bytes of sha256("account:Counter").
pub open spec fn spec_counter_discriminator() -> Seq<u8> {
    seq![255u8, 176, 4, 245, 188, 253, 124, 25]
}

pub fn counter_discriminator() -> (d: [u8; 8])
    ensures
        d@ == spec_counter_discriminator(),
{
    let d: [u8; 8] = [255, 176, 4, 245, 188, 253, 124, 25];
    assert(d@ =~= spec_counter_discriminator());
    d
}

/// First eight bytes of sha256("global:initialize_counter").
pub open spec fn spec_initialize_counter_discriminator() -> Seq<u8> {
    seq![67u8, 89, 100, 87, 231, 172, 35, 124]
}

/// First eight bytes of sha256("global:increment").
pub open spec fn spec_increment_discriminator() -> Seq<u8> {
    seq![11u8, 18, 104, 9, 104, 174, 59, 33]
}

/// Bytes a counter account takes: discriminator and one `u64`.
pub const COUNTER_SPACE: u64 = 16;

/// The state of a counter account.
#[derive(Debug, Clone, Copy, PartialEq, Eq, Structural)]
pub struct Counter {
    pub count: u64,
}

pub open spec fn spec_load_counter(data: Seq<u8>) -> Result<Counter, ErrorCode> {
    match spec_read_u64_account(data, spec_counter_discriminator()) {
        Ok(v) => Ok(Counter { count: v }),
        Err(e) => Err(e),
    }
}

impl Counter {
    /// Reads a counter from account data.
    pub fn try_deserialize(data: &[u8]) -> (r: Result<Counter, ErrorCode>)
        ensures
            r == spec_load_counter(data@),
    {
        let disc = counter_discriminator();
        match read_u64_account(data, &disc) {
            Ok(v) => Ok(Counter { count: v }),
            Err(e) => Err(e),
        }
    }

    /// Writes the counter at the start of account data; a buffer shorter than
    /// `COUNTER_SPACE` is refused and left as it was.
    pub fn try_serialize(&self, data: &mut Vec<u8>) -> (r: Result<(), ErrorCode>)
        ensures
            old(data)@.len() < 16 ==> r == Err::<(), ErrorCode>(ErrorCode::AccountDidNotSerialize)
                && final(data)@ == old(data)@,
            old(data)@.len() >= 16 ==> r is Ok && final(data)@ == account_bytes(
                spec_counter_discriminator(),
                self.count,
            ) + old(data)@.subrange(16, old(data)@.len() as int),
    {
        let disc = counter_discriminator();
        write_u64_account(data, &disc, self.count)
    }
}

/// Sets the count of a new counter to zero.
pub fn initialize_counter(counter: &mut Counter) -> (r: Result<(), ProgramError>)
    ensures
        r is Ok,
        final(counter).count == 0,
{
    counter.count = 0;
    Ok(())
}

/// What one increment does to a count: adds one, or refuses with `Overflow`
/// at `u64::MAX`.
pub open spec fn spec_increment_count(count: u64) -> Result<u64, ProgramError> {
    if count < u64::MAX {
        Ok((count + 1) as u64)
    } else {
        Err(ProgramError::Custom(MyError::Overflow))
    }
}

/// Adds one to the count; at `u64::MAX` the count stays and `Overflow` is
/// returned.
pub fn increment(counter: &mut Counter) -> (r: Result<(), ProgramError>)
    ensures
        match spec_increment_count(old(counter).count) {
            Ok(c) => r is Ok && final(counter).count == c,
            Err(e) => r == Err::<(), ProgramError>(e) && final(counter).count == old(counter).count,
        },
{
    match counter.count.checked_add(1) {
        Some(c) => {
            counter.count = c;
            Ok(())
        },
        None => Err(ProgramError::Custom(MyError::Overflow)),
    }
}

/// The counter program's instructions.
#[derive(Debug, Clone, Copy, PartialEq, Eq, Structural)]
pub enum CounterInstruction {
    InitializeCounter,
    Increment,
}

pub open spec fn spec_counter_instruction_data(ix: CounterInstruction) -> Seq<u8> {
    match ix {
        CounterInstruction::InitializeCounter => spec_initialize_counter_discriminator(),
        CounterInstruction::Increment => spec_increment_discriminator(),
    }
}

pub open spec fn spec_decode_counter_instruction(data: Seq<u8>) -> Option<CounterInstruction> {
    if starts_with(data, spec_initialize_counter_discriminator()) {
        Some(CounterInstruction::InitializeCounter)
    } else if starts_with(data, spec_increment_discriminator()) {
        Some(CounterInstruction::Increment)
    } else {
        None
    }
}

impl CounterInstruction {
    /// The instruction data that selects this instruction.
    pub fn data(&self) -> (d: Vec<u8>)
        ensures
            d@ == spec_counter_instruction_data(*self),
    {
        match self {
            CounterInstruction::InitializeCounter => {
                let disc: [u8; 8] = [67, 89, 100, 87, 231, 172, 35, 124];
                assert(disc@ =~= spec_initialize_counter_discriminator());
                instruction_data(&disc)
            },
            CounterInstruction::Increment => {
                let disc: [u8; 8] = [11, 18, 104, 9, 104, 174, 59, 33];
                assert(disc@ =~= spec_increment_discriminator());
                instruction_data(&disc)
            },
        }
    }

    /// Which instruction `data` selects, if any of this program's.
    pub fn decode(data: &[u8]) -> (r: Option<CounterInstruction>)
        ensures
            r == spec_decode_counter_instruction(data@),
    {
        let init: [u8; 8] = [67, 89, 100, 87, 231, 172, 35, 124];
        assert(init@ =~= spec_initialize_counter_discriminator());
        let inc: [u8; 8] = [11, 18, 104, 9, 104, 174, 59, 33];
        assert(inc@ =~= spec_increment_discriminator());
        if has_prefix(data, &init) {
            Some(CounterInstruction::InitializeCounter)
        } else if has_prefix(data, &inc) {
            Some(CounterInstruction::Increment)
        } else {
            None
        }
    }
}

/// The accounts of `increment`, once loaded: the counter.
pub struct Increment {
    pub counter: Counter,
}

/// Loading the accounts of `increment`: the first account must be an
/// existing counter of this program and writable.
pub open spec fn spec_increment_accounts(accounts: Seq<AccountView>) -> Result<Counter, ErrorCode> {
    if accounts.len() < 1 {
        Err(ErrorCode::AccountNotEnoughKeys)
    } else {
        let a = accounts[0];
        match spec_check_owner(a, spec_counter_program_id()) {
            Err(e) => Err(e),
            Ok(_) => match spec_load_counter(a.data@) {
                Err(e) => Err(e),
                Ok(c) => if !a.is_writable {
                    Err(ErrorCode::ConstraintMut)
                } else {
                    Ok(c)
                },
            },
        }
    }
}

impl Increment {
    pub fn try_accounts(accounts: &Vec<AccountView>) -> (r: Result<Increment, ErrorCode>)
        ensures
            match spec_increment_accounts(accounts@) {
                Ok(c) => r matches Ok(inc) && inc.counter == c,
                Err(e) => r matches Err(e2) && e2 == e,
            },
    {
        if accounts.len() < 1 {
            return Err(ErrorCode::AccountNotEnoughKeys);
        }
        let a = &accounts[0];
        let id = counter_program_id();
        check_owner(a, &id)?;
        let counter = Counter::try_deserialize(a.data.as_slice())?;
        check_mut(a)?;
        Ok(Increment { counter })
    }
}

/// What the `increment` instruction does: the new data of the counter
/// account, or why it fails.
pub open spec fn spec_process_increment(accounts: Seq<AccountView>) -> Result<Seq<u8>, ProgramError> {
    match spec_increment_accounts(accounts) {
        Err(e) => Err(ProgramError::Anchor(e)),
        Ok(c) => if c.count == u64::MAX {
            Err(ProgramError::Custom(MyError::Overflow))
        } else {
            Ok(account_bytes(spec_counter_discriminator(), (c.count + 1) as u64)
                + accounts[0].data@.subrange(16, accounts[0].data@.len() as int))
        },
    }
}

/// Runs `increment` on the accounts passed to it: loads the counter, adds
/// one, and stores it back. On an error nothing changes.
pub fn process_increment(accounts: &mut Vec<AccountView>) -> (r: Result<(), ProgramError>)
    ensures
        match spec_process_increment(old(accounts)@) {
            Ok(d) => r is Ok && data_replaced(old(accounts)@, final(accounts)@, 0, d),
            Err(e) => r == Err::<(), ProgramError>(e) && final(accounts)@ == old(accounts)@,
        },
{
    let mut ix = match Increment::try_accounts(accounts) {
        Ok(ix) => ix,
        Err(e) => return Err(ProgramError::Anchor(e)),
    };
    increment(&mut ix.counter)?;
    let mut data = accounts[0].data.clone();
    match ix.counter.try_serialize(&mut data) {
        Ok(()) => {},
        Err(e) => return Err(ProgramError::Anchor(e)),
    }
    set_data(accounts, 0, data);
    Ok(())
}


/// What `initialize_counter` does: its accounts are the payer (signer,
/// writable), the new counter (signer, writable) and the system program.
/// `rent_minimum` is the rent-exempt minimum for `COUNTER_SPACE` bytes, read
/// by the caller from the rent sysvar.
pub open spec fn spec_process_initialize_counter(accounts: Seq<AccountView>, rent_minimum: u64) -> Result<InitPlanSpec, ProgramError> {
    spec_process_init(accounts, 0, rent_minimum, spec_counter_program_id(), spec_counter_discriminator(), 0)
}

/// The accounts of `initialize_counter`, once checked: the payer (first) and
/// the new counter (second); the third is the system program.
pub struct InitializeCounter {
    pub counter: Pubkey,
    pub payer: Pubkey,
}

impl InitializeCounter {
    pub fn try_accounts(accounts: &Vec<AccountView>) -> (r: Result<InitializeCounter, ErrorCode>)
        ensures
            match spec_init_accounts(accounts@, 0) {
                Ok(_) => r matches Ok(x) && x.payer@ == accounts@[0].key@
                    && x.counter@ == accounts@[1].key@,
                Err(e) => r matches Err(e2) && e2 == e,
            },
    {
        check_init_accounts(accounts, 0)?;
        Ok(InitializeCounter { counter: accounts[1].key.copy(), payer: accounts[0].key.copy() })
    }
}

/// Runs the initializing instruction: checks the accounts, plans the creation
/// of the new account, and ends with its field at zero.
pub fn process_initialize_counter(accounts: &Vec<AccountView>, rent_minimum: u64) -> (r: Result<InitPlan, ProgramError>)
    ensures
        match spec_process_initialize_counter(accounts@, rent_minimum) {
            Ok(p) => r matches Ok(plan) && plan@ == p,
            Err(e) => r matches Err(e2) && e2 == e,
        },
{
    match InitializeCounter::try_accounts(accounts) {
        Ok(_) => {},
        Err(e) => return Err(ProgramError::Anchor(e)),
    }
    // The handler's effect on the freshly created (zeroed) counter.
    let mut counter = Counter { count: 0 };
    initialize_counter(&mut counter)?;
    let value = counter.count;
    let id = counter_program_id();
    let disc = counter_discriminator();
    plan_init(&accounts[0], &accounts[1], rent_minimum, &id, &disc, value)
}


/// The data that selects an instruction selects that instruction.
pub proof fn law_counter_instruction_roundtrip(ix: CounterInstruction)
    ensures
        spec_decode_counter_instruction(spec_counter_instruction_data(ix)) == Some(ix),
{
    let d = spec_counter_instruction_data(ix);
    assert(d.subrange(0, 8) =~= d);
    match ix {
        CounterInstruction::InitializeCounter => {},
        CounterInstruction::Increment => {
            assert(d.subrange(0, 8)[0] != spec_initialize_counter_discriminator()[0]);
        },
    }
}

/// A stored counter loads back as the same counter, whatever follows it in
/// the account.
pub proof fn law_counter_load_after_store(c: Counter, rest: Seq<u8>)
    ensures
        spec_load_counter(account_bytes(spec_counter_discriminator(), c.count) + rest) == Ok::<Counter, ErrorCode>(c),
{
    crate::codec::lemma_read_after_write(spec_counter_discriminator(), c.count, rest);
}

/// After a successful `increment`, the counter account loads as the count it
/// held plus one; `increment` fails with `Overflow` exactly when the stored
/// count is `u64::MAX`, once the accounts are accepted.
pub proof fn law_increment_adds_one(accounts: Seq<AccountView>)
    requires
        spec_increment_accounts(accounts) is Ok,
    ensures
        ({
            let before = spec_increment_accounts(accounts)->Ok_0.count;
            &&& (before == u64::MAX <==> spec_process_increment(accounts) == Err::<Seq<u8>, ProgramError>(
                ProgramError::Custom(MyError::Overflow)))
            &&& (before < u64::MAX ==> (spec_process_increment(accounts) matches Ok(d)
                && spec_load_counter(d) == Ok::<Counter, ErrorCode>(Counter { count: (before + 1) as u64 })))
        }),
{
    let before = spec_increment_accounts(accounts)->Ok_0.count;
    if before < u64::MAX {
        let rest = accounts[0].data@.subrange(16, accounts[0].data@.len() as int);
        law_counter_load_after_store(Counter { count: (before + 1) as u64 }, rest);
    }
}

/// A counter created by `initialize_counter` loads as zero.
pub proof fn law_initialized_counter_is_zero(accounts: Seq<AccountView>, rent_minimum: u64)
    requires
        spec_process_initialize_counter(accounts, rent_minimum) matches Ok(p) && p.after is Ok,
    ensures
        spec_process_initialize_counter(accounts, rent_minimum) matches Ok(p)
            && p.after matches Ok(d) && spec_load_counter(d) == Ok::<Counter, ErrorCode>(Counter { count: 0 }),
{
    law_counter_load_after_store(Counter { count: 0 }, Seq::<u8>::empty());
    assert(account_bytes(spec_counter_discriminator(), 0) + Seq::<u8>::empty() =~= account_bytes(spec_counter_discriminator(), 0));
}


/// Which instruction the counter program runs for `data`, once it has checked
/// that it runs under its declared address; data that selects none of its
/// instructions goes to the framework's answer (`spec_framework_dispatch`).
pub open spec fn spec_counter_entry(program_id: Seq<u8>, data: Seq<u8>) -> Result<Dispatch<CounterInstruction>, ErrorCode> {
    if program_id != spec_counter_program_id() {
        Err(ErrorCode::DeclaredProgramIdMismatch)
    } else {
        match spec_decode_counter_instruction(data) {
            Some(ix) => Ok(Dispatch::Program(ix)),
            None => spec_framework_dispatch(data),
        }
    }
}

pub fn entry(program_id: &Pubkey, data: &[u8]) -> (r: Result<Dispatch<CounterInstruction>, ErrorCode>)
    ensures
        r == spec_counter_entry(program_id@, data@),
{
    let id = counter_program_id();
    check_declared_id(program_id, &id)?;
    match CounterInstruction::decode(data) {
        Some(ix) => Ok(Dispatch::Program(ix)),
        None => framework_dispatch(data),
    }
}


/// The count after `n` increments from `count`, or the first refusal.
pub open spec fn spec_increments(count: u64, n: nat) -> Result<u64, ProgramError>
    decreases n,
{
    if n == 0 {
        Ok(count)
    } else {
        match spec_increments(count, (n - 1) as nat) {
            Ok(c) => spec_increment_count(c),
            Err(e) => Err(e),
        }
    }
}

/// The count is the number of increments since initialization: from the zero
/// that `initialize_counter` sets, `n` increments (`n <= u64::MAX`) all
/// succeed and leave the count at `n`; one more is refused with `Overflow`.
pub proof fn law_count_equals_increments(n: nat)
    ensures
        n <= u64::MAX ==> spec_increments(0, n) == Ok::<u64, ProgramError>(n as u64),
        n > u64::MAX ==> spec_increments(0, n) == Err::<u64, ProgramError>(ProgramError::Custom(MyError::Overflow)),
    decreases n,
{
    if n > 0 {
        law_count_equals_increments((n - 1) as nat);
    }
}

/// `initialize_counter` creates the counter (second account) paid by the
/// payer (first), once the payer has signed and the third account is the
/// executable system program. A counter account without lamports is created
/// by one `CreateAccount` from the payer, funded with exactly `rent_minimum`
/// lamports, 16 bytes, owned by the counter program. One that holds `l`
/// lamports is topped up by a `Transfer` of `rent_minimum - l` from the payer
/// (only where it lacks them), then given 16 bytes and handed to the counter
/// program; the payer itself is refused as the new account. The counter then
/// holds its discriminator and a zero count, exactly when it is writable and
/// has signed and the payer is writable.
pub proof fn law_initialize_counter_creates_account(accounts: Seq<AccountView>, rent_minimum: u64)
    requires
        accounts.len() >= 3,
        accounts[0].is_signer,
        accounts[2].key@ == spec_system_program_id(),
        accounts[2].executable,
    ensures
        accounts[1].lamports == 0 ==> (spec_process_initialize_counter(accounts, rent_minimum) matches Ok(p) && p.invocations == seq![
            InstructionSpec {
                program_id: spec_system_program_id(),
                accounts: seq![meta(accounts[0].key@, true, true), meta(accounts[1].key@, true, true)],
                data: seq![0u8, 0, 0, 0] + spec_u64_to_le_bytes(rent_minimum) + spec_u64_to_le_bytes(16)
                    + spec_counter_program_id(),
            },
        ]),
        accounts[1].lamports > 0 && accounts[1].key@ != accounts[0].key@ ==> (spec_process_initialize_counter(accounts, rent_minimum) matches Ok(p)
            && p.invocations.len() >= 2
            && p.invocations[p.invocations.len() - 2] == (InstructionSpec {
                program_id: spec_system_program_id(),
                accounts: seq![meta(accounts[1].key@, true, true)],
                data: seq![8u8, 0, 0, 0] + spec_u64_to_le_bytes(16),
            })
            && p.invocations[p.invocations.len() - 1] == (InstructionSpec {
                program_id: spec_system_program_id(),
                accounts: seq![meta(accounts[1].key@, true, true)],
                data: seq![1u8, 0, 0, 0] + spec_counter_program_id(),
            })
            && (rent_minimum > accounts[1].lamports ==> p.invocations.len() == 3 && p.invocations[0] == (InstructionSpec {
                program_id: spec_system_program_id(),
                accounts: seq![meta(accounts[0].key@, true, true), meta(accounts[1].key@, false, true)],
                data: seq![2u8, 0, 0, 0] + spec_u64_to_le_bytes((rent_minimum - accounts[1].lamports) as u64),
            }))
            && (rent_minimum <= accounts[1].lamports ==> p.invocations.len() == 2)),
        accounts[1].lamports > 0 && accounts[1].key@ == accounts[0].key@ ==> spec_process_initialize_counter(accounts, rent_minimum)
            == Err::<InitPlanSpec, ProgramError>(ProgramError::Anchor(ErrorCode::TryingToInitPayerAsProgramAccount)),
        spec_process_initialize_counter(accounts, rent_minimum) matches Ok(p) ==> ((p.after is Ok) == (accounts[1].is_writable
            && accounts[1].is_signer && accounts[0].is_writable)),
        spec_process_initialize_counter(accounts, rent_minimum) matches Ok(p) ==> (p.after is Ok ==> (p.after == Ok::<Seq<u8>, ProgramError>(
            spec_counter_discriminator() + spec_u64_to_le_bytes(0)) && spec_load_counter(p.after->Ok_0) == Ok::<Counter, ErrorCode>(Counter { count: 0 }))),
{
    crate::init::law_init_plan(accounts, 0, rent_minimum, spec_counter_program_id(), spec_counter_discriminator(), 0);
    law_counter_load_after_store(Counter { count: 0 }, Seq::<u8>::empty());
    assert(account_bytes(spec_counter_discriminator(), 0) + Seq::<u8>::empty() =~= spec_counter_discriminator() + spec_u64_to_le_bytes(0));
}

/// `increment` adds one to the count stored in an existing counter and
/// changes nothing else. It is accepted exactly when the first account is
/// writable, owned by the counter program and holds at least 16 bytes that
/// begin with the counter's discriminator, and the count in bytes 8 to 16 is
/// below `u64::MAX`; the account then keeps its first eight bytes and
/// everything after the sixteenth, and bytes 8 to 16 hold the count plus one.
pub proof fn law_increment_request(accounts: Seq<AccountView>)
    ensures
        (spec_process_increment(accounts) is Ok) == (accounts.len() >= 1
            && accounts[0].owner@ == spec_counter_program_id() && accounts[0].is_writable
            && accounts[0].data@.len() >= 16
            && accounts[0].data@.subrange(0, 8) == seq![255u8, 176, 4, 245, 188, 253, 124, 25]
            && vstd::bytes::spec_u64_from_le_bytes(accounts[0].data@.subrange(8, 16)) < u64::MAX),
        spec_process_increment(accounts) is Ok ==> spec_process_increment(accounts)->Ok_0
            == accounts[0].data@.subrange(0, 8)
                + spec_u64_to_le_bytes((vstd::bytes::spec_u64_from_le_bytes(accounts[0].data@.subrange(8, 16)) + 1) as u64)
                + accounts[0].data@.subrange(16, accounts[0].data@.len() as int),
{
    assert(spec_counter_program_id()[0] != spec_system_program_id()[0]);
}

} // verus!
