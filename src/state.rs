use vstd::prelude::*;
use crate::error::ErrorCode;

verus! {

/// The data held by a counter account.
#[derive(Clone, Copy, Debug, PartialEq, Eq, Structural)]
pub struct Counter {
    pub count: u64,
}

/// The counter after one increment, or why there is none.
pub open spec fn incremented(c: Counter) -> Result<Counter, ErrorCode> {
    if c.count == u64::MAX {
        Err(ErrorCode::CounterOverflow)
    } else {
        Ok(Counter { count: (c.count + 1) as u64 })
    }
}

/// The counter after one decrement, or why there is none.
pub open spec fn decremented(c: Counter) -> Result<Counter, ErrorCode> {
    if c.count == 0 {
        Err(ErrorCode::CannotDecrementToZero)
    } else {
        Ok(Counter { count: (c.count - 1) as u64 })
    }
}

impl Counter {
    /// A freshly initialized counter.
    pub fn new() -> (r: Counter)
        ensures
            r.count == 0,
    {
        Counter { count: 0 }
    }

    /// Adds one; fails, leaving the counter as it was, at `u64::MAX`.
    pub fn increment(&mut self) -> (r: Result<(), ErrorCode>)
        ensures
            match incremented(*old(self)) {
                Ok(c) => r is Ok && *final(self) == c,
                Err(e) => r == Err::<(), ErrorCode>(e) && *final(self) == *old(self),
            },
    {
        if self.count == u64::MAX {
            Err(ErrorCode::CounterOverflow)
        } else {
            self.count = self.count + 1;
            Ok(())
        }
    }

    /// Subtracts one; fails, leaving the counter as it was, at 0.
    pub fn decrement(&mut self) -> (r: Result<(), ErrorCode>)
        ensures
            match decremented(*old(self)) {
                Ok(c) => r is Ok && *final(self) == c,
                Err(e) => r == Err::<(), ErrorCode>(e) && *final(self) == *old(self),
            },
    {
        if self.count == 0 {
            Err(ErrorCode::CannotDecrementToZero)
        } else {
            self.count = self.count - 1;
            Ok(())
        }
    }
}

/// Whether an account holds a counter of this program.
#[derive(Clone, Copy, Debug, PartialEq, Eq, Structural)]
pub enum CounterState {
    /// Not yet allocated, or not holding a counter of this program.
    Uninitialized,
    Initialized(Counter),
}

/// A counter account as an instruction sees it.
#[derive(Clone, Copy, Debug, PartialEq, Eq, Structural)]
pub struct CounterAccount {
    pub state: CounterState,
    /// Whether the transaction marks the account writable.
    pub is_writable: bool,
}

/// The account that pays for a new counter's storage.
#[derive(Clone, Copy, Debug, PartialEq, Eq, Structural)]
pub struct Payer {
    pub is_signer: bool,
    pub is_writable: bool,
    pub lamports: u64,
}

/// The accounts of `initialize`.
#[derive(Clone, Copy, Debug)]
pub struct Initialize {
    /// The account to create.
    pub counter: CounterAccount,
    /// The payer of the new account's storage.
    pub user: Payer,
    /// The key passed as the system program.
    pub system_program: [u8; 32],
    /// What the new account's storage costs, in lamports.
    pub rent: u64,
}

/// The accounts of `increment`.
#[derive(Clone, Copy, Debug, PartialEq, Eq, Structural)]
pub struct Increment {
    pub counter: CounterAccount,
}

/// The accounts of `decrement`.
#[derive(Clone, Copy, Debug, PartialEq, Eq, Structural)]
pub struct Decrement {
    pub counter: CounterAccount,
}

} // verus!
