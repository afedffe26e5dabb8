//! The ways in which a call can be rejected.

use vstd::prelude::*;

verus! {

/// Bytes that do not spell a value.
#[derive(Clone, Copy, Debug, PartialEq, Eq, Structural)]
pub enum DecodeError {
    /// The instruction is not exactly one known tag byte.
    Malformed,
    /// The account buffer ends before the stored counter does.
    BufferTooShort,
}

/// A buffer that cannot hold a value.
#[derive(Clone, Copy, Debug, PartialEq, Eq, Structural)]
pub enum EncodeError {
    /// The account buffer is smaller than the stored counter.
    BufferTooShort,
}

/// A transition that would leave the range of the counter.
#[derive(Clone, Copy, Debug, PartialEq, Eq, Structural)]
pub enum TransitionError {
    /// Incrementing the largest count.
    Overflow,
    /// Decrementing zero.
    Underflow,
}

/// Why a call was rejected. Every rejection leaves all accounts as they were.
#[derive(Clone, Copy, Debug, PartialEq, Eq, Structural)]
pub enum HandlerError {
    /// The instruction bytes do not spell a command.
    InvalidInstruction,
    /// The call came without an account.
    MissingAccount,
    /// The account belongs to another program.
    IncorrectOwner,
    /// The account buffer does not hold a counter.
    Decode(DecodeError),
    /// The command cannot be applied to the stored count.
    Transition(TransitionError),
    /// The account buffer cannot take the new counter. A buffer that held
    /// the old counter has room for the new one, so the handler never
    /// returns this.
    Encode(EncodeError),
}

} // verus!
