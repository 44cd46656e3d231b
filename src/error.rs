use vstd::prelude::*;

verus! {

/// An account handed to an instruction breaks one of the constraints that the
/// instruction declares. These are found before any handler runs.
#[derive(Clone, Copy, Debug, PartialEq, Eq, Structural)]
pub enum ConstraintError {
    /// The account to create already holds a counter.
    AccountAlreadyInitialized,
    /// The account does not hold a counter of this program.
    AccountNotInitialized,
    /// The account is not writable in this call.
    AccountNotMutable,
    /// The payer did not sign the transaction.
    AccountNotSigner,
    /// The payer cannot fund the new account's storage.
    InsufficientFunds,
    /// The system program reference is not the system program.
    InvalidProgramId,
}

/// The errors that the program's own handlers raise.
#[derive(Clone, Copy, Debug, PartialEq, Eq, Structural)]
pub enum ErrorCode {
    /// `decrement` on a counter that is already 0.
    CannotDecrementToZero,
    /// `increment` on a counter that is already at `u64::MAX`.
    CounterOverflow,
}

/// Why an instruction failed.
#[derive(Clone, Copy, Debug, PartialEq, Eq, Structural)]
pub enum InstructionError {
    Constraint(ConstraintError),
    Program(ErrorCode),
}

/// Custom error codes are numbered upward from this offset.
pub const ERROR_CODE_OFFSET: u32 = 6000;

impl ErrorCode {
    /// The numeric code that a client sees for this error.
    pub fn code(&self) -> (r: u32)
        ensures
            r == ERROR_CODE_OFFSET + match self {
                ErrorCode::CannotDecrementToZero => 0u32,
                ErrorCode::CounterOverflow => 1u32,
            },
    {
        match self {
            ErrorCode::CannotDecrementToZero => ERROR_CODE_OFFSET,
            ErrorCode::CounterOverflow => ERROR_CODE_OFFSET + 1,
        }
    }

    /// The message that a client sees for this error.
    pub fn message(&self) -> (r: &'static str)
        ensures
            r@ == match self {
                ErrorCode::CannotDecrementToZero =>
                    "Cannot decrement the counter because it is already at 0."@,
                ErrorCode::CounterOverflow =>
                    "Cannot increment the counter because it is already at its maximum."@,
            },
    {
        match self {
            ErrorCode::CannotDecrementToZero =>
                "Cannot decrement the counter because it is already at 0.",
            ErrorCode::CounterOverflow =>
                "Cannot increment the counter because it is already at its maximum.",
        }
    }
}

} // verus!
