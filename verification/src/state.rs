//! The stored counter and its codec.

use vstd::prelude::*;
use crate::error::{DecodeError, EncodeError};
use crate::wire::{
    le_bytes, le_value, lemma_le_bytes_of_le_value, read_u32, write_u32, STATE_WIDTH,
};

verus! {

/// The state kept in an account: one count, which never wraps.
#[derive(Clone, Copy, Debug, PartialEq, Eq, Structural)]
pub struct CounterAccount {
    pub count: u32,
}

impl CounterAccount {
    /// What a buffer holds: the count that its first four bytes spell in
    /// little-endian order, whatever follows them. Every four bytes spell a
    /// count. A buffer of fewer than four bytes holds nothing.
    pub open spec fn spec_decode(buffer: Seq<u8>) -> Result<CounterAccount, DecodeError> {
        if buffer.len() >= STATE_WIDTH {
            Ok(CounterAccount { count: le_value(buffer) as u32 })
        } else {
            Err(DecodeError::BufferTooShort)
        }
    }

    /// What a buffer becomes when this state is stored in it: its first four
    /// bytes spell the count in little-endian order, the others stay. A
    /// buffer of fewer than four bytes cannot take the state.
    pub open spec fn spec_encode(self, buffer: Seq<u8>) -> Result<Seq<u8>, EncodeError> {
        if buffer.len() >= STATE_WIDTH {
            Ok(le_bytes(self.count) + buffer.subrange(STATE_WIDTH as int, buffer.len() as int))
        } else {
            Err(EncodeError::BufferTooShort)
        }
    }

    /// Reads the state at the start of an account buffer.
    pub fn decode(buffer: &[u8]) -> (r: Result<CounterAccount, DecodeError>)
        ensures
            r == Self::spec_decode(buffer@),
            r is Ok <==> buffer@.len() >= STATE_WIDTH,
    {
        match read_u32(buffer) {
            Ok(count) => Ok(CounterAccount { count }),
            Err(_) => Err(DecodeError::BufferTooShort),
        }
    }

    /// Writes the state over the start of an account buffer and leaves the
    /// bytes after it alone. A buffer that is too short is left as it was.
    pub fn encode(&self, buffer: &mut [u8]) -> (r: Result<(), EncodeError>)
        ensures
            match self.spec_encode(old(buffer)@) {
                Ok(stored) => r is Ok && final(buffer)@ == stored,
                Err(e) => r == Err::<(), EncodeError>(e) && final(buffer)@ == old(buffer)@,
            },
            r is Ok <==> old(buffer)@.len() >= STATE_WIDTH,
            final(buffer)@.len() == old(buffer)@.len(),
            r is Ok ==> Self::spec_decode(final(buffer)@) == Ok::<CounterAccount, DecodeError>(
                *self,
            ),
    {
        if buffer.len() < STATE_WIDTH {
            return Err(EncodeError::BufferTooShort);
        }
        let bytes = match write_u32(self.count) {
            Ok(bytes) => bytes,
            Err(_) => unreached(),
        };
        let mut i: usize = 0;
        while i < STATE_WIDTH
            invariant
                i <= STATE_WIDTH,
                bytes@ == le_bytes(self.count),
                buffer@.len() == old(buffer)@.len(),
                buffer@.len() >= STATE_WIDTH,
                forall|k: int| 0 <= k < i ==> buffer@[k] == bytes@[k],
                forall|k: int| i <= k < buffer@.len() ==> buffer@[k] == old(buffer)@[k],
            decreases STATE_WIDTH - i,
        {
            buffer[i] = bytes[i];
            i = i + 1;
        }
        assert(buffer@ =~= le_bytes(self.count) + old(buffer)@.subrange(
            STATE_WIDTH as int,
            old(buffer)@.len() as int,
        ));
        Ok(())
    }
}

/// A state that has been stored is read back unchanged, whatever the buffer
/// held before. Storing keeps the length of the buffer and every byte after
/// the counter, and it succeeds exactly when the buffer has room.
pub proof fn lemma_decode_inverts_encode(state: CounterAccount, buffer: Seq<u8>)
    ensures
        state.spec_encode(buffer) is Ok <==> buffer.len() >= STATE_WIDTH,
        state.spec_encode(buffer) matches Ok(stored) ==> {
            &&& CounterAccount::spec_decode(stored) == Ok::<CounterAccount, DecodeError>(state)
            &&& stored.len() == buffer.len()
            &&& forall|k: int| STATE_WIDTH <= k < buffer.len() ==> stored[k] == buffer[k]
        },
{
}

/// Storing the state that a buffer holds gives the same buffer.
pub proof fn lemma_encode_inverts_decode(buffer: Seq<u8>)
    ensures
        CounterAccount::spec_decode(buffer) is Ok <==> buffer.len() >= STATE_WIDTH,
        CounterAccount::spec_decode(buffer) matches Ok(state) ==> state.spec_encode(buffer) == Ok::<
            Seq<u8>,
            EncodeError,
        >(buffer),
{
    if buffer.len() >= STATE_WIDTH {
        let head = buffer.subrange(0, STATE_WIDTH as int);
        lemma_le_bytes_of_le_value(head);
        assert(head + buffer.subrange(STATE_WIDTH as int, buffer.len() as int) =~= buffer);
    }
}

} // verus!
