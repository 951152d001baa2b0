use vstd::prelude::*;

use solana_program::program_error::ProgramError;

verus! {

/// Errors raised by this program itself.
#[derive(Debug, Clone, Copy, PartialEq, Eq, Structural)]
pub enum PoCError {
    /// The instruction bytes are malformed or carry an unknown tag.
    InvalidInstruction,
    /// An account is not owned by the expected program.
    IncorrectProgramId,
    /// The requested amount is invalid (zero).
    InvalidAmount,
}

impl PoCError {
    /// The custom error code under which the host reports this error.
    pub open spec fn code_spec(self) -> u32 {
        match self {
            PoCError::InvalidInstruction => 0,
            PoCError::IncorrectProgramId => 1,
            PoCError::InvalidAmount => 2,
        }
    }

    pub fn code(&self) -> (r: u32)
        ensures
            r == self.code_spec(),
    {
        match self {
            PoCError::InvalidInstruction => 0,
            PoCError::IncorrectProgramId => 1,
            PoCError::InvalidAmount => 2,
        }
    }
}

/// Why a call to the program failed.
#[derive(Debug)]
pub enum ProcessError {
    /// An error of this program.
    Program(PoCError),
    /// Fewer accounts were supplied than the instruction needs.
    NotEnoughAccountKeys,
    /// An account is not owned by the lending program.
    InvalidAccountOwner,
    /// The reserve belongs to another lending market than the one supplied.
    InvalidAccountInput,
    /// An account's data does not decode as the lending program's record; the decoding
    /// error is kept as the lending program raised it.
    AccountData(ProgramError),
}

} // verus!
