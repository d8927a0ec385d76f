use vstd::prelude::*;
use crate::codec::{has_prefix, starts_with};
use crate::error::ErrorCode;
use crate::pubkey::{Pubkey, spec_system_program_id, system_program_id};

verus! {

/// What an instruction sees of one account passed to it.
pub struct AccountView {
    pub key: Pubkey,
    pub owner: Pubkey,
    pub lamports: u64,
    pub data: Vec<u8>,
    pub is_signer: bool,
    pub is_writable: bool,
    pub executable: bool,
}

/// One account of an instruction handed to another program.
pub struct AccountMeta {
    pub pubkey: Pubkey,
    pub is_signer: bool,
    pub is_writable: bool,
}

/// Mathematical form of an `AccountMeta`.
pub struct MetaSpec {
    pub pubkey: Seq<u8>,
    pub is_signer: bool,
    pub is_writable: bool,
}

impl View for AccountMeta {
    type V = MetaSpec;

    open spec fn view(&self) -> MetaSpec {
        MetaSpec { pubkey: self.pubkey@, is_signer: self.is_signer, is_writable: self.is_writable }
    }
}

pub open spec fn meta(pubkey: Seq<u8>, is_signer: bool, is_writable: bool) -> MetaSpec {
    MetaSpec { pubkey, is_signer, is_writable }
}

/// An instruction for another program (a cross-program invocation).
pub struct Instruction {
    pub program_id: Pubkey,
    pub accounts: Vec<AccountMeta>,
    pub data: Vec<u8>,
}

/// Mathematical form of an `Instruction`.
pub struct InstructionSpec {
    pub program_id: Seq<u8>,
    pub accounts: Seq<MetaSpec>,
    pub data: Seq<u8>,
}

impl View for Instruction {
    type V = InstructionSpec;

    open spec fn view(&self) -> InstructionSpec {
        InstructionSpec {
            program_id: self.program_id@,
            accounts: self.accounts@.map_values(|m: AccountMeta| m@),
            data: self.data@,
        }
    }
}

impl AccountMeta {
    pub fn new(pubkey: &Pubkey, is_signer: bool) -> (m: AccountMeta)
        ensures
            m@ == meta(pubkey@, is_signer, true),
    {
        AccountMeta { pubkey: pubkey.copy(), is_signer, is_writable: true }
    }

    pub fn new_readonly(pubkey: &Pubkey, is_signer: bool) -> (m: AccountMeta)
        ensures
            m@ == meta(pubkey@, is_signer, false),
    {
        AccountMeta { pubkey: pubkey.copy(), is_signer, is_writable: false }
    }
}

/// `Signer`: the account must have signed.
pub fn check_signer(acc: &AccountView) -> (r: Result<(), ErrorCode>)
    ensures
        r == (if acc.is_signer { Ok(()) } else { Err(ErrorCode::AccountNotSigner) }),
{
    if acc.is_signer {
        Ok(())
    } else {
        Err(ErrorCode::AccountNotSigner)
    }
}

/// `#[account(mut)]`: the account must be writable.
pub fn check_mut(acc: &AccountView) -> (r: Result<(), ErrorCode>)
    ensures
        r == (if acc.is_writable { Ok(()) } else { Err(ErrorCode::ConstraintMut) }),
{
    if acc.is_writable {
        Ok(())
    } else {
        Err(ErrorCode::ConstraintMut)
    }
}

pub open spec fn spec_check_program(acc: AccountView, id: Seq<u8>) -> Result<(), ErrorCode> {
    if acc.key@ != id {
        Err(ErrorCode::InvalidProgramId)
    } else if !acc.executable {
        Err(ErrorCode::InvalidProgramExecutable)
    } else {
        Ok(())
    }
}

/// `Program<P>`: the account must be the program `id`, and executable.
pub fn check_program(acc: &AccountView, id: &Pubkey) -> (r: Result<(), ErrorCode>)
    ensures
        r == spec_check_program(*acc, id@),
{
    if !acc.key.key_eq(id) {
        Err(ErrorCode::InvalidProgramId)
    } else if !acc.executable {
        Err(ErrorCode::InvalidProgramExecutable)
    } else {
        Ok(())
    }
}

pub open spec fn spec_check_owner(acc: AccountView, program_id: Seq<u8>) -> Result<(), ErrorCode> {
    if acc.owner@ == spec_system_program_id() && acc.lamports == 0 {
        Err(ErrorCode::AccountNotInitialized)
    } else if acc.owner@ != program_id {
        Err(ErrorCode::AccountOwnedByWrongProgram)
    } else {
        Ok(())
    }
}

/// The ownership part of loading an `Account<T>`: the account must exist and
/// belong to `program_id`.
pub fn check_owner(acc: &AccountView, program_id: &Pubkey) -> (r: Result<(), ErrorCode>)
    ensures
        r == spec_check_owner(*acc, program_id@),
{
    let system = system_program_id();
    if acc.owner.key_eq(&system) && acc.lamports == 0 {
        Err(ErrorCode::AccountNotInitialized)
    } else if !acc.owner.key_eq(program_id) {
        Err(ErrorCode::AccountOwnedByWrongProgram)
    } else {
        Ok(())
    }
}

} // verus!

verus! {

/// `b` is `a` with possibly other data.
pub open spec fn same_but_data(a: AccountView, b: AccountView) -> bool {
    &&& b.key@ == a.key@
    &&& b.owner@ == a.owner@
    &&& b.lamports == a.lamports
    &&& b.is_signer == a.is_signer
    &&& b.is_writable == a.is_writable
    &&& b.executable == a.executable
}

/// `after` is `before` with account `i` holding `data` and nothing else changed.
pub open spec fn data_replaced(before: Seq<AccountView>, after: Seq<AccountView>, i: int, data: Seq<u8>) -> bool {
    &&& after.len() == before.len()
    &&& 0 <= i < before.len()
    &&& same_but_data(before[i], after[i])
    &&& after[i].data@ == data
    &&& forall|j: int| 0 <= j < before.len() && j != i ==> after[j] == before[j]
}

impl AccountView {
    pub fn with_data(&self, data: Vec<u8>) -> (a: AccountView)
        ensures
            same_but_data(*self, a),
            a.data@ == data@,
    {
        AccountView {
            key: self.key.copy(),
            owner: self.owner.copy(),
            lamports: self.lamports,
            data,
            is_signer: self.is_signer,
            is_writable: self.is_writable,
            executable: self.executable,
        }
    }
}

/// Replaces the data of account `i`.
pub fn set_data(accounts: &mut Vec<AccountView>, i: usize, data: Vec<u8>)
    requires
        i < old(accounts)@.len(),
    ensures
        data_replaced(old(accounts)@, final(accounts)@, i as int, data@),
{
    let a = accounts[i].with_data(data);
    accounts.set(i, a);
}

} // verus!

verus! {

/// A program only runs under the address it was declared with.
pub fn check_declared_id(program_id: &Pubkey, declared: &Pubkey) -> (r: Result<(), ErrorCode>)
    ensures
        r == (if program_id@ == declared@ { Ok(()) } else { Err(ErrorCode::DeclaredProgramIdMismatch) }),
{
    if program_id.key_eq(declared) {
        Ok(())
    } else {
        Err(ErrorCode::DeclaredProgramIdMismatch)
    }
}

} // verus!

verus! {

/// What a program's entry decides for instruction data: one of the program's
/// own instructions, or an instruction of the framework's IDL management
/// (which the framework's own code answers).
#[derive(Debug, Clone, Copy, PartialEq, Eq)]
pub enum Dispatch<T> {
    Program(T),
    Idl,
}

/// The tag of the framework's IDL-management instructions: `0x0a69e9a778bcf440`
/// in little-endian order.
pub open spec fn spec_idl_tag() -> Seq<u8> {
    seq![64u8, 244, 188, 120, 167, 233, 105, 10]
}

/// The tag of the framework's event instructions: `0x1d9acb512ea545e4` in
/// little-endian order.
pub open spec fn spec_event_tag() -> Seq<u8> {
    seq![228u8, 69, 165, 46, 81, 203, 154, 29]
}

/// What the entry answers for data that selects none of the program's own
/// instructions: IDL management goes to the framework, event instructions are
/// refused as not built in, anything else is refused as unknown.
pub open spec fn spec_framework_dispatch<T>(data: Seq<u8>) -> Result<Dispatch<T>, ErrorCode> {
    if starts_with(data, spec_idl_tag()) {
        Ok(Dispatch::Idl)
    } else if starts_with(data, spec_event_tag()) {
        Err(ErrorCode::EventInstructionStub)
    } else {
        Err(ErrorCode::InstructionFallbackNotFound)
    }
}

pub fn framework_dispatch<T>(data: &[u8]) -> (r: Result<Dispatch<T>, ErrorCode>)
    ensures
        r == spec_framework_dispatch::<T>(data@),
{
    let idl: [u8; 8] = [64, 244, 188, 120, 167, 233, 105, 10];
    assert(idl@ =~= spec_idl_tag());
    let event: [u8; 8] = [228, 69, 165, 46, 81, 203, 154, 29];
    assert(event@ =~= spec_event_tag());
    if has_prefix(data, &idl) {
        Ok(Dispatch::Idl)
    } else if has_prefix(data, &event) {
        Err(ErrorCode::EventInstructionStub)
    } else {
        Err(ErrorCode::InstructionFallbackNotFound)
    }
}

} // verus!
