use counter::{
    decrement, increment, initialize, is_system_program, validate_counter, validate_initialize,
    ConstraintError, Counter, CounterAccount, CounterState, Decrement, ErrorCode, Increment,
    Initialize, InstructionError, Payer,
};

fn fresh_accounts() -> Initialize {
    Initialize {
        counter: CounterAccount { state: CounterState::Uninitialized, is_writable: true },
        user: Payer { is_signer: true, is_writable: true, lamports: 5_000_000 },
        system_program: [0u8; 32],
        rent: 1_002_240,
    }
}

fn initialized_account() -> CounterAccount {
    let mut ctx = fresh_accounts();
    initialize(&mut ctx).unwrap();
    ctx.counter
}

fn count(a: &CounterAccount) -> u64 {
    match a.state {
        CounterState::Initialized(c) => c.count,
        CounterState::Uninitialized => panic!("account holds no counter"),
    }
}

fn inc(a: CounterAccount) -> (CounterAccount, Result<(), InstructionError>) {
    let mut ctx = Increment { counter: a };
    let r = increment(&mut ctx);
    (ctx.counter, r)
}

fn dec(a: CounterAccount) -> (CounterAccount, Result<(), InstructionError>) {
    let mut ctx = Decrement { counter: a };
    let r = decrement(&mut ctx);
    (ctx.counter, r)
}

#[test]
fn initialize_sets_count_to_zero() {
    let mut ctx = fresh_accounts();
    assert_eq!(initialize(&mut ctx), Ok(()));
    assert_eq!(ctx.counter.state, CounterState::Initialized(Counter { count: 0 }));
    assert_eq!(ctx.user.lamports, 5_000_000 - 1_002_240);
}

#[test]
fn three_increments_give_three() {
    let mut a = initialized_account();
    for _ in 0..3 {
        let (next, r) = inc(a);
        assert_eq!(r, Ok(()));
        a = next;
    }
    assert_eq!(count(&a), 3);
}

#[test]
fn three_increments_then_three_decrements_give_zero() {
    let mut a = initialized_account();
    for _ in 0..3 {
        let (next, r) = inc(a);
        assert_eq!(r, Ok(()));
        a = next;
    }
    for _ in 0..3 {
        let (next, r) = dec(a);
        assert_eq!(r, Ok(()));
        a = next;
    }
    assert_eq!(count(&a), 0);
}

#[test]
fn decrement_after_initialize_fails_and_keeps_zero() {
    let a = initialized_account();
    let (after, r) = dec(a);
    assert_eq!(r, Err(InstructionError::Program(ErrorCode::CannotDecrementToZero)));
    assert_eq!(after, a);
    assert_eq!(count(&after), 0);
}

#[test]
fn second_initialize_on_same_account_fails() {
    let mut ctx = fresh_accounts();
    assert_eq!(initialize(&mut ctx), Ok(()));
    let before = ctx;
    assert_eq!(
        initialize(&mut ctx),
        Err(InstructionError::Constraint(ConstraintError::AccountAlreadyInitialized))
    );
    assert_eq!(ctx.counter, before.counter);
    assert_eq!(ctx.user, before.user);
}

#[test]
fn n_increments_give_n() {
    for n in 0..20u64 {
        let mut a = initialized_account();
        for _ in 0..n {
            a = inc(a).0;
        }
        assert_eq!(count(&a), n);
    }
}

#[test]
fn mixed_sequence_never_goes_below_zero() {
    let ops = [false, false, true, false, true, true, true, false, true, true];
    let mut a = initialized_account();
    let mut expected: i64 = 0;
    for &is_inc in ops.iter() {
        let (next, r) = if is_inc { inc(a) } else { dec(a) };
        if r.is_ok() {
            expected += if is_inc { 1 } else { -1 };
        } else {
            assert_eq!(next, a);
        }
        assert!(expected >= 0);
        assert_eq!(count(&next) as i64, expected);
        a = next;
    }
    assert_eq!(count(&a), 4);
}

#[test]
fn increment_then_decrement_restores_count() {
    let mut a = initialized_account();
    a.state = CounterState::Initialized(Counter { count: 41 });
    let (up, r1) = inc(a);
    assert_eq!(r1, Ok(()));
    assert_eq!(count(&up), 42);
    let (down, r2) = dec(up);
    assert_eq!(r2, Ok(()));
    assert_eq!(down, a);
}

#[test]
fn increment_at_maximum_fails_unchanged() {
    let a = CounterAccount {
        state: CounterState::Initialized(Counter { count: u64::MAX }),
        is_writable: true,
    };
    let (after, r) = inc(a);
    assert_eq!(r, Err(InstructionError::Program(ErrorCode::CounterOverflow)));
    assert_eq!(after, a);
}

#[test]
fn increment_on_uninitialized_account_fails() {
    let a = CounterAccount { state: CounterState::Uninitialized, is_writable: true };
    let (after, r) = inc(a);
    assert_eq!(r, Err(InstructionError::Constraint(ConstraintError::AccountNotInitialized)));
    assert_eq!(after, a);
    let (_, r) = dec(a);
    assert_eq!(r, Err(InstructionError::Constraint(ConstraintError::AccountNotInitialized)));
}

#[test]
fn counter_instructions_need_writable_account() {
    let a = CounterAccount {
        state: CounterState::Initialized(Counter { count: 7 }),
        is_writable: false,
    };
    assert_eq!(validate_counter(&a), Err(ConstraintError::AccountNotMutable));
    let (after, r) = inc(a);
    assert_eq!(r, Err(InstructionError::Constraint(ConstraintError::AccountNotMutable)));
    assert_eq!(after, a);
    let (after, r) = dec(a);
    assert_eq!(r, Err(InstructionError::Constraint(ConstraintError::AccountNotMutable)));
    assert_eq!(after, a);
}

#[test]
fn initialize_needs_payer_signature() {
    let mut ctx = fresh_accounts();
    ctx.user.is_signer = false;
    assert_eq!(
        initialize(&mut ctx),
        Err(InstructionError::Constraint(ConstraintError::AccountNotSigner))
    );
    assert_eq!(ctx.counter.state, CounterState::Uninitialized);
    assert_eq!(ctx.user.lamports, 5_000_000);
}

#[test]
fn initialize_needs_system_program() {
    let mut ctx = fresh_accounts();
    ctx.system_program[31] = 1;
    assert_eq!(
        initialize(&mut ctx),
        Err(InstructionError::Constraint(ConstraintError::InvalidProgramId))
    );
    assert_eq!(ctx.counter.state, CounterState::Uninitialized);
}

#[test]
fn initialize_needs_writable_accounts() {
    let mut ctx = fresh_accounts();
    ctx.counter.is_writable = false;
    assert_eq!(validate_initialize(&ctx), Err(ConstraintError::AccountNotMutable));
    let mut ctx = fresh_accounts();
    ctx.user.is_writable = false;
    assert_eq!(
        initialize(&mut ctx),
        Err(InstructionError::Constraint(ConstraintError::AccountNotMutable))
    );
}

#[test]
fn initialize_needs_rent_funds() {
    let mut ctx = fresh_accounts();
    ctx.user.lamports = ctx.rent - 1;
    assert_eq!(
        initialize(&mut ctx),
        Err(InstructionError::Constraint(ConstraintError::InsufficientFunds))
    );
    let mut ctx = fresh_accounts();
    ctx.user.lamports = ctx.rent;
    assert_eq!(initialize(&mut ctx), Ok(()));
    assert_eq!(ctx.user.lamports, 0);
}

#[test]
fn system_program_key_is_all_zero() {
    assert!(is_system_program(&[0u8; 32]));
    let mut key = [0u8; 32];
    key[0] = 6;
    assert!(!is_system_program(&key));
}

#[test]
fn error_codes_and_messages() {
    assert_eq!(ErrorCode::CannotDecrementToZero.code(), 6000);
    assert_eq!(ErrorCode::CounterOverflow.code(), 6001);
    assert_eq!(
        ErrorCode::CannotDecrementToZero.message(),
        "Cannot decrement the counter because it is already at 0."
    );
}

#[test]
fn counter_methods() {
    let mut c = Counter::new();
    assert_eq!(c.decrement(), Err(ErrorCode::CannotDecrementToZero));
    assert_eq!(c.count, 0);
    assert_eq!(c.increment(), Ok(()));
    assert_eq!(c.increment(), Ok(()));
    assert_eq!(c.decrement(), Ok(()));
    assert_eq!(c.count, 1);
}
