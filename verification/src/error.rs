use vstd::prelude::*;

verus! {

/// The framework errors that the programs' checks can raise, with the numbers
/// under which the on-chain programs report them.
#[derive(Debug, Clone, Copy, PartialEq, Eq, Structural)]
pub enum ErrorCode {
    InstructionFallbackNotFound,
    InstructionDidNotDeserialize,
    EventInstructionStub,
    ConstraintMut,
    ConstraintSigner,
    ConstraintSeeds,
    AccountDiscriminatorNotFound,
    AccountDiscriminatorMismatch,
    AccountDidNotDeserialize,
    AccountDidNotSerialize,
    AccountNotEnoughKeys,
    AccountOwnedByWrongProgram,
    InvalidProgramId,
    InvalidProgramExecutable,
    AccountNotSigner,
    AccountNotInitialized,
    AccountSysvarMismatch,
    DeclaredProgramIdMismatch,
    TryingToInitPayerAsProgramAccount,
}

pub open spec fn spec_error_number(e: ErrorCode) -> u32 {
    match e {
        ErrorCode::InstructionFallbackNotFound => 101,
        ErrorCode::InstructionDidNotDeserialize => 102,
        ErrorCode::EventInstructionStub => 1500,
        ErrorCode::ConstraintMut => 2000,
        ErrorCode::ConstraintSigner => 2002,
        ErrorCode::ConstraintSeeds => 2006,
        ErrorCode::AccountDiscriminatorNotFound => 3001,
        ErrorCode::AccountDiscriminatorMismatch => 3002,
        ErrorCode::AccountDidNotDeserialize => 3003,
        ErrorCode::AccountDidNotSerialize => 3004,
        ErrorCode::AccountNotEnoughKeys => 3005,
        ErrorCode::AccountOwnedByWrongProgram => 3007,
        ErrorCode::InvalidProgramId => 3008,
        ErrorCode::InvalidProgramExecutable => 3009,
        ErrorCode::AccountNotSigner => 3010,
        ErrorCode::AccountNotInitialized => 3012,
        ErrorCode::AccountSysvarMismatch => 3015,
        ErrorCode::DeclaredProgramIdMismatch => 4100,
        ErrorCode::TryingToInitPayerAsProgramAccount => 4101,
    }
}

impl ErrorCode {
    /// The error number reported on chain.
    pub fn number(&self) -> (n: u32)
        ensures
            n == spec_error_number(*self),
    {
        match self {
            ErrorCode::InstructionFallbackNotFound => 101,
            ErrorCode::InstructionDidNotDeserialize => 102,
            ErrorCode::EventInstructionStub => 1500,
            ErrorCode::ConstraintMut => 2000,
            ErrorCode::ConstraintSigner => 2002,
            ErrorCode::ConstraintSeeds => 2006,
            ErrorCode::AccountDiscriminatorNotFound => 3001,
            ErrorCode::AccountDiscriminatorMismatch => 3002,
            ErrorCode::AccountDidNotDeserialize => 3003,
            ErrorCode::AccountDidNotSerialize => 3004,
            ErrorCode::AccountNotEnoughKeys => 3005,
            ErrorCode::AccountOwnedByWrongProgram => 3007,
            ErrorCode::InvalidProgramId => 3008,
            ErrorCode::InvalidProgramExecutable => 3009,
            ErrorCode::AccountNotSigner => 3010,
            ErrorCode::AccountNotInitialized => 3012,
            ErrorCode::AccountSysvarMismatch => 3015,
            ErrorCode::DeclaredProgramIdMismatch => 4100,
            ErrorCode::TryingToInitPayerAsProgramAccount => 4101,
        }
    }
}

/// The counter program's own errors.
#[derive(Debug, Clone, Copy, PartialEq, Eq, Structural)]
pub enum MyError {
    /// The count would pass `u64::MAX`.
    Overflow,
}

impl MyError {
    /// The error number reported on chain: custom errors start at 6000.
    pub fn number(&self) -> (n: u32)
        ensures
            n == 6000,
    {
        match self {
            MyError::Overflow => 6000,
        }
    }

    /// The message reported with the error.
    pub fn message(&self) -> (m: &'static str)
        ensures
            m@ == "Ha ocurrido un desbordamiento aritmético (Overflow)."@,
    {
        match self {
            MyError::Overflow => "Ha ocurrido un desbordamiento aritmético (Overflow).",
        }
    }
}

/// Why an instruction of one of the programs failed.
#[derive(Debug, Clone, Copy, PartialEq, Eq, Structural)]
pub enum ProgramError {
    /// A check of the framework's account or data rules failed.
    Anchor(ErrorCode),
    /// The counter program refused the operation.
    Custom(MyError),
    /// An instruction was addressed to the wrong token program.
    IncorrectProgramId,
}

} // verus!
