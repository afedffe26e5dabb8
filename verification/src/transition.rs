//! The transition from one counter state to the next.

use vstd::prelude::*;
use crate::error::TransitionError;
use crate::instruction::CounterInstruction;
use crate::state::CounterAccount;

verus! {

/// The state that follows `current` under `command`. Initialize and Reset
/// give zero from any state. Increment and Decrement move by one and are
/// refused at the ends of the range: the count never wraps.
pub open spec fn spec_apply(command: CounterInstruction, current: CounterAccount) -> Result<
    CounterAccount,
    TransitionError,
> {
    match command {
        CounterInstruction::Initialize | CounterInstruction::Reset => Ok(
            CounterAccount { count: 0 },
        ),
        CounterInstruction::Increment => if current.count == u32::MAX {
            Err(TransitionError::Overflow)
        } else {
            Ok(CounterAccount { count: (current.count + 1) as u32 })
        },
        CounterInstruction::Decrement => if current.count == 0 {
            Err(TransitionError::Underflow)
        } else {
            Ok(CounterAccount { count: (current.count - 1) as u32 })
        },
    }
}

/// Computes the state that follows `current` under `command`.
pub fn apply(command: CounterInstruction, current: CounterAccount) -> (r: Result<
    CounterAccount,
    TransitionError,
>)
    ensures
        r == spec_apply(command, current),
        r matches Ok(next) ==> match command {
            CounterInstruction::Initialize | CounterInstruction::Reset => next.count == 0,
            CounterInstruction::Increment => next.count == current.count + 1,
            CounterInstruction::Decrement => next.count == current.count - 1,
        },
        r is Err <==> (command is Increment && current.count == u32::MAX) || (command is Decrement
            && current.count == 0),
{
    match command {
        CounterInstruction::Initialize | CounterInstruction::Reset => Ok(
            CounterAccount { count: 0 },
        ),
        CounterInstruction::Increment => match current.count.checked_add(1) {
            Some(count) => Ok(CounterAccount { count }),
            None => Err(TransitionError::Overflow),
        },
        CounterInstruction::Decrement => match current.count.checked_sub(1) {
            Some(count) => Ok(CounterAccount { count }),
            None => Err(TransitionError::Underflow),
        },
    }
}

/// Below the largest count, an increment followed by a decrement gives the
/// state back. At the largest count the increment is refused as an overflow:
/// the count is never wrapped around to zero.
pub proof fn lemma_increment_then_decrement(state: CounterAccount)
    ensures
        state.count < u32::MAX ==> {
            &&& spec_apply(CounterInstruction::Increment, state) matches Ok(up)
            &&& up.count == state.count + 1
            &&& spec_apply(CounterInstruction::Decrement, up) == Ok::<
                CounterAccount,
                TransitionError,
            >(state)
        },
        state.count == u32::MAX ==> spec_apply(CounterInstruction::Increment, state) == Err::<
            CounterAccount,
            TransitionError,
        >(TransitionError::Overflow),
{
}

/// Above zero, a decrement followed by an increment gives the state back. At
/// zero the decrement is refused as an underflow: the count is never wrapped
/// around to the largest count.
pub proof fn lemma_decrement_then_increment(state: CounterAccount)
    ensures
        state.count > 0 ==> {
            &&& spec_apply(CounterInstruction::Decrement, state) matches Ok(down)
            &&& down.count == state.count - 1
            &&& spec_apply(CounterInstruction::Increment, down) == Ok::<
                CounterAccount,
                TransitionError,
            >(state)
        },
        state.count == 0 ==> spec_apply(CounterInstruction::Decrement, state) == Err::<
            CounterAccount,
            TransitionError,
        >(TransitionError::Underflow),
{
}

/// Initialize and Reset give the zero state from every state, so either of
/// them applied a second time changes nothing.
pub proof fn lemma_initialize_and_reset_give_zero(state: CounterAccount)
    ensures
        spec_apply(CounterInstruction::Initialize, state) == Ok::<CounterAccount, TransitionError>(
            CounterAccount { count: 0 },
        ),
        spec_apply(CounterInstruction::Reset, state) == Ok::<CounterAccount, TransitionError>(
            CounterAccount { count: 0 },
        ),
        spec_apply(CounterInstruction::Initialize, CounterAccount { count: 0 }) == spec_apply(
            CounterInstruction::Initialize,
            state,
        ),
        spec_apply(CounterInstruction::Reset, CounterAccount { count: 0 }) == spec_apply(
            CounterInstruction::Reset,
            state,
        ),
{
}

} // verus!
