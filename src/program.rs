use vstd::prelude::*;
use crate::error::{ConstraintError, InstructionError};
use crate::state::{
    decremented, incremented, Counter, CounterAccount, CounterState, Decrement, Increment,
    Initialize, Payer,
};

verus! {

/// The system program's key: 32 zero bytes.
pub open spec fn system_program_key() -> Seq<u8> {
    Seq::new(32, |i: int| 0u8)
}

/// Relies on anchor_lang::system_program::ID, declared from the base-58 text
/// "11111111111111111111111111111111", which stands for 32 zero bytes.
#[verifier::external_body]
fn system_program_id() -> (r: [u8; 32])
    ensures
        r@ == system_program_key(),
{
    anchor_lang::system_program::ID.to_bytes()
}

/// Whether `key` is the system program's key.
pub fn is_system_program(key: &[u8; 32]) -> (r: bool)
    ensures
        r == (key@ == system_program_key()),
{
    let id = system_program_id();
    let mut i: usize = 0;
    while i < 32
        invariant
            0 <= i <= 32,
            id@ == system_program_key(),
            forall|j: int| 0 <= j < i ==> key@[j] == id@[j],
        decreases 32 - i,
    {
        if key[i] != id[i] {
            assert(key@ != system_program_key());
            return false;
        }
        i = i + 1;
    }
    assert(key@ =~= system_program_key());
    true
}

/// The constraints of `initialize`, checked in this order: the counter
/// account must not hold a counter yet, the payer must sign, the system
/// program must be the system program, both accounts must be writable, and
/// the payer must hold at least the rent.
pub open spec fn initialize_check(ctx: Initialize) -> Result<(), ConstraintError> {
    if ctx.counter.state is Initialized {
        Err(ConstraintError::AccountAlreadyInitialized)
    } else if !ctx.user.is_signer {
        Err(ConstraintError::AccountNotSigner)
    } else if ctx.system_program@ != system_program_key() {
        Err(ConstraintError::InvalidProgramId)
    } else if !ctx.counter.is_writable || !ctx.user.is_writable {
        Err(ConstraintError::AccountNotMutable)
    } else if ctx.user.lamports < ctx.rent {
        Err(ConstraintError::InsufficientFunds)
    } else {
        Ok(())
    }
}

/// The accounts after a successful `initialize`: the counter holds 0 and the
/// payer has paid the rent.
pub open spec fn initialized(ctx: Initialize) -> Initialize {
    Initialize {
        counter: CounterAccount {
            state: CounterState::Initialized(Counter { count: 0 }),
            is_writable: ctx.counter.is_writable,
        },
        user: Payer {
            is_signer: ctx.user.is_signer,
            is_writable: ctx.user.is_writable,
            lamports: (ctx.user.lamports - ctx.rent) as u64,
        },
        system_program: ctx.system_program,
        rent: ctx.rent,
    }
}

/// The constraints of `increment` and `decrement`: the account holds a
/// counter of this program and is writable. Gives the counter it holds.
pub open spec fn counter_check(a: CounterAccount) -> Result<Counter, ConstraintError> {
    match a.state {
        CounterState::Uninitialized => Err(ConstraintError::AccountNotInitialized),
        CounterState::Initialized(c) => if a.is_writable {
            Ok(c)
        } else {
            Err(ConstraintError::AccountNotMutable)
        },
    }
}

/// The counter account after `increment`, or why the instruction fails.
pub open spec fn after_increment(a: CounterAccount) -> Result<CounterAccount, InstructionError> {
    match counter_check(a) {
        Err(e) => Err(InstructionError::Constraint(e)),
        Ok(c) => match incremented(c) {
            Err(e) => Err(InstructionError::Program(e)),
            Ok(n) => Ok(CounterAccount { state: CounterState::Initialized(n), is_writable: a.is_writable }),
        },
    }
}

/// The counter account after `decrement`, or why the instruction fails.
pub open spec fn after_decrement(a: CounterAccount) -> Result<CounterAccount, InstructionError> {
    match counter_check(a) {
        Err(e) => Err(InstructionError::Constraint(e)),
        Ok(c) => match decremented(c) {
            Err(e) => Err(InstructionError::Program(e)),
            Ok(n) => Ok(CounterAccount { state: CounterState::Initialized(n), is_writable: a.is_writable }),
        },
    }
}

/// A call of `increment` or `decrement` on one counter account.
#[derive(Clone, Copy, Debug, PartialEq, Eq, Structural)]
pub enum CounterInstruction {
    Increment,
    Decrement,
}

/// The counter account after one instruction, or why it fails.
pub open spec fn after_instruction(
    a: CounterAccount,
    ins: CounterInstruction,
) -> Result<CounterAccount, InstructionError> {
    match ins {
        CounterInstruction::Increment => after_increment(a),
        CounterInstruction::Decrement => after_decrement(a),
    }
}

/// The counter account after a sequence of instructions. A failed
/// instruction is rolled back and changes nothing.
pub open spec fn run(a: CounterAccount, ins: Seq<CounterInstruction>) -> CounterAccount
    decreases ins.len(),
{
    if ins.len() == 0 {
        a
    } else {
        let prev = run(a, ins.drop_last());
        match after_instruction(prev, ins.last()) {
            Ok(next) => next,
            Err(_) => prev,
        }
    }
}

/// Checks the accounts of `initialize` against its constraints.
pub fn validate_initialize(ctx: &Initialize) -> (r: Result<(), ConstraintError>)
    ensures
        r == initialize_check(*ctx),
{
    if let CounterState::Initialized(_) = ctx.counter.state {
        return Err(ConstraintError::AccountAlreadyInitialized);
    }
    if !ctx.user.is_signer {
        return Err(ConstraintError::AccountNotSigner);
    }
    if !is_system_program(&ctx.system_program) {
        return Err(ConstraintError::InvalidProgramId);
    }
    if !ctx.counter.is_writable || !ctx.user.is_writable {
        return Err(ConstraintError::AccountNotMutable);
    }
    if ctx.user.lamports < ctx.rent {
        return Err(ConstraintError::InsufficientFunds);
    }
    Ok(())
}

/// Checks a counter account against the constraints of `increment` and
/// `decrement`, and reads the counter it holds.
pub fn validate_counter(a: &CounterAccount) -> (r: Result<Counter, ConstraintError>)
    ensures
        r == counter_check(*a),
{
    match a.state {
        CounterState::Uninitialized => Err(ConstraintError::AccountNotInitialized),
        CounterState::Initialized(c) => if a.is_writable {
            Ok(c)
        } else {
            Err(ConstraintError::AccountNotMutable)
        },
    }
}

/// Creates the counter with a count of 0, paid for by the payer.
pub fn initialize(ctx: &mut Initialize) -> (r: Result<(), InstructionError>)
    ensures
        match initialize_check(*old(ctx)) {
            Ok(()) => r is Ok && *final(ctx) == initialized(*old(ctx)),
            Err(e) => r == Err::<(), InstructionError>(InstructionError::Constraint(e))
                && *final(ctx) == *old(ctx),
        },
{
    match validate_initialize(ctx) {
        Ok(()) => {},
        Err(e) => return Err(InstructionError::Constraint(e)),
    }
    ctx.counter.state = CounterState::Initialized(Counter::new());
    ctx.user.lamports = ctx.user.lamports - ctx.rent;
    Ok(())
}

/// Adds one to the counter.
pub fn increment(ctx: &mut Increment) -> (r: Result<(), InstructionError>)
    ensures
        match after_increment(old(ctx).counter) {
            Ok(a) => r is Ok && final(ctx).counter == a,
            Err(e) => r == Err::<(), InstructionError>(e) && *final(ctx) == *old(ctx),
        },
{
    let mut counter = match validate_counter(&ctx.counter) {
        Ok(c) => c,
        Err(e) => return Err(InstructionError::Constraint(e)),
    };
    match counter.increment() {
        Ok(()) => {},
        Err(e) => return Err(InstructionError::Program(e)),
    }
    ctx.counter.state = CounterState::Initialized(counter);
    Ok(())
}

/// Subtracts one from the counter; fails with `CannotDecrementToZero` when it
/// is 0.
pub fn decrement(ctx: &mut Decrement) -> (r: Result<(), InstructionError>)
    ensures
        match after_decrement(old(ctx).counter) {
            Ok(a) => r is Ok && final(ctx).counter == a,
            Err(e) => r == Err::<(), InstructionError>(e) && *final(ctx) == *old(ctx),
        },
{
    let mut counter = match validate_counter(&ctx.counter) {
        Ok(c) => c,
        Err(e) => return Err(InstructionError::Constraint(e)),
    };
    match counter.decrement() {
        Ok(()) => {},
        Err(e) => return Err(InstructionError::Program(e)),
    }
    ctx.counter.state = CounterState::Initialized(counter);
    Ok(())
}

} // verus!
