//! The commands of the counter program and their one-byte encoding.

use vstd::prelude::*;
use crate::error::DecodeError;
use crate::wire::read_u8;

verus! {

/// What a call asks for. Every command works on the counter in the first
/// account of the call.
#[derive(Clone, Copy, Debug, PartialEq, Eq, Structural)]
pub enum CounterInstruction {
    /// Give the account a counter that stands at zero.
    Initialize,
    /// Add one to the counter.
    Increment,
    /// Take one from the counter.
    Decrement,
    /// Set the counter back to zero.
    Reset,
}

impl CounterInstruction {
    /// The byte that stands for this command on the wire.
    pub open spec fn spec_tag(self) -> u8 {
        match self {
            CounterInstruction::Initialize => 0,
            CounterInstruction::Increment => 1,
            CounterInstruction::Decrement => 2,
            CounterInstruction::Reset => 3,
        }
    }

    /// The command that instruction bytes spell: exactly one byte, which is
    /// the tag of a command. Empty input, an unknown tag and bytes after the
    /// tag are all malformed.
    pub open spec fn spec_decode(bytes: Seq<u8>) -> Result<CounterInstruction, DecodeError> {
        if bytes.len() != 1 {
            Err(DecodeError::Malformed)
        } else if bytes[0] == 0 {
            Ok(CounterInstruction::Initialize)
        } else if bytes[0] == 1 {
            Ok(CounterInstruction::Increment)
        } else if bytes[0] == 2 {
            Ok(CounterInstruction::Decrement)
        } else if bytes[0] == 3 {
            Ok(CounterInstruction::Reset)
        } else {
            Err(DecodeError::Malformed)
        }
    }

    /// The instruction bytes of this command.
    pub open spec fn spec_encode(self) -> Seq<u8> {
        seq![self.spec_tag()]
    }

    /// The byte that stands for this command on the wire.
    #[verifier::when_used_as_spec(spec_tag)]
    pub fn tag(self) -> (t: u8)
        ensures
            t == self.spec_tag(),
    {
        match self {
            CounterInstruction::Initialize => 0,
            CounterInstruction::Increment => 1,
            CounterInstruction::Decrement => 2,
            CounterInstruction::Reset => 3,
        }
    }

    /// Reads a command from instruction bytes.
    pub fn decode(bytes: &[u8]) -> (r: Result<CounterInstruction, DecodeError>)
        ensures
            r == Self::spec_decode(bytes@),
    {
        match read_u8(bytes) {
            Ok(0) => Ok(CounterInstruction::Initialize),
            Ok(1) => Ok(CounterInstruction::Increment),
            Ok(2) => Ok(CounterInstruction::Decrement),
            Ok(3) => Ok(CounterInstruction::Reset),
            _ => Err(DecodeError::Malformed),
        }
    }

    /// Writes the instruction bytes of this command.
    pub fn encode(self) -> (bytes: Vec<u8>)
        ensures
            bytes@ == self.spec_encode(),
    {
        let mut bytes: Vec<u8> = Vec::new();
        bytes.push(self.tag());
        bytes
    }
}

/// Every command is read back from its own instruction bytes.
pub proof fn lemma_instruction_round_trip(command: CounterInstruction)
    ensures
        CounterInstruction::spec_decode(command.spec_encode()) == Ok::<
            CounterInstruction,
            DecodeError,
        >(command),
{
}

/// Instruction bytes that spell a command are the bytes of that command, so
/// no two inputs spell the same command.
pub proof fn lemma_instruction_bytes_unique(bytes: Seq<u8>)
    requires
        CounterInstruction::spec_decode(bytes) is Ok,
    ensures
        CounterInstruction::spec_decode(bytes)->Ok_0.spec_encode() == bytes,
{
}

} // verus!
