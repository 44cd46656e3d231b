use vstd::prelude::*;
use crate::error::{ErrorCode, InstructionError};
use crate::program::{
    after_decrement, after_increment, after_instruction, initialize_check, initialized, run,
    CounterInstruction,
};
use crate::state::{Counter, CounterAccount, CounterState, Initialize};

verus! {

/// The count an account holds, as an integer; 0 where it holds none.
pub open spec fn count_of(a: CounterAccount) -> int {
    match a.state {
        CounterState::Initialized(c) => c.count as int,
        CounterState::Uninitialized => 0,
    }
}

/// How far an instruction moves the count when it succeeds.
pub open spec fn step_of(ins: CounterInstruction) -> int {
    match ins {
        CounterInstruction::Increment => 1,
        CounterInstruction::Decrement => -1,
    }
}

/// After a successful `initialize`, `n` increments leave the count at `n`.
pub proof fn lemma_increments_count(ctx: Initialize, n: nat)
    requires
        initialize_check(ctx) is Ok,
        n <= u64::MAX,
    ensures
        run(initialized(ctx).counter, Seq::new(n, |i: int| CounterInstruction::Increment))
            == (CounterAccount {
            state: CounterState::Initialized(Counter { count: n as u64 }),
            is_writable: true,
        }),
    decreases n,
{
    if n > 0 {
        lemma_increments_count(ctx, (n - 1) as nat);
        assert(Seq::new(n, |i: int| CounterInstruction::Increment).drop_last() =~= Seq::new(
            (n - 1) as nat,
            |i: int| CounterInstruction::Increment,
        ));
    }
}

/// Whatever sequence of increments and decrements runs on an account, each
/// call that succeeds moves the count by exactly one in its direction, and
/// the count it leaves is never negative.
pub proof fn lemma_count_never_negative(a: CounterAccount, ins: Seq<CounterInstruction>)
    ensures
        forall|i: int|
            0 <= i < ins.len() && (#[trigger] after_instruction(run(a, ins.take(i)), ins[i])) is Ok
                ==> count_of(run(a, ins.take(i + 1))) == count_of(run(a, ins.take(i))) + step_of(
                ins[i],
            ) >= 0,
{
    assert forall|i: int|
        0 <= i < ins.len() && (#[trigger] after_instruction(run(a, ins.take(i)), ins[i])) is Ok
            implies count_of(run(a, ins.take(i + 1))) == count_of(run(a, ins.take(i))) + step_of(
            ins[i],
        ) >= 0 by {
        assert(ins.take(i + 1).drop_last() =~= ins.take(i));
        assert(ins.take(i + 1).last() == ins[i]);
    }
}

/// An increment followed by a decrement gives back the account as it was.
pub proof fn lemma_increment_then_decrement(a: CounterAccount)
    requires
        after_increment(a) is Ok,
    ensures
        after_decrement(after_increment(a)->Ok_0) == Ok::<CounterAccount, InstructionError>(a),
{
}

/// A decrement on a counter at 0 fails with `CannotDecrementToZero`; the
/// handler then leaves the account unchanged.
pub proof fn lemma_decrement_at_zero(a: CounterAccount)
    requires
        a.is_writable,
        a.state == CounterState::Initialized(Counter { count: 0 }),
    ensures
        after_decrement(a) == Err::<CounterAccount, InstructionError>(
            InstructionError::Program(ErrorCode::CannotDecrementToZero),
        ),
{
}

} // verus!
