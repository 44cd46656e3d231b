//! An on-chain counter: one unsigned integer per account, changed by the
//! `initialize`, `increment` and `decrement` instructions.
//!
//! Each instruction first checks the accounts it is handed against the
//! constraints it declares, then runs its handler. A failed instruction
//! leaves every account as it was.
pub mod error;
pub mod state;
pub mod program;
pub mod laws;
pub mod layout;

pub use error::{ConstraintError, ErrorCode, InstructionError};
pub use state::{Counter, CounterAccount, CounterState, Payer, Initialize, Increment, Decrement};
pub use program::{
    initialize, increment, decrement, validate_initialize, validate_counter, is_system_program,
    CounterInstruction,
};
pub use layout::{
    LayoutError, COUNTER_SPACE, COUNTER_TAG_SEED, discriminator, encode_account, decode_account,
};
