//! The fixed-width little-endian layout of a 32-bit count, and the calls into
//! `borsh` that read and write it.

use vstd::prelude::*;

verus! {

/// Number of bytes that a stored counter occupies.
pub const STATE_WIDTH: usize = 4;

/// The number that the first four bytes of `bytes` spell, least significant
/// byte first.
pub open spec fn le_value(bytes: Seq<u8>) -> int
    recommends
        bytes.len() >= 4,
{
    bytes[0] + 256 * bytes[1] + 65536 * bytes[2] + 16777216 * bytes[3]
}

/// The four bytes that spell `value`, least significant byte first.
pub open spec fn le_bytes(value: u32) -> Seq<u8> {
    seq![
        (value % 256) as u8,
        (value / 256 % 256) as u8,
        (value / 65536 % 256) as u8,
        (value / 16777216) as u8,
    ]
}

/// Any four bytes spell a number that fits in 32 bits.
pub proof fn lemma_le_value_fits(bytes: Seq<u8>)
    requires
        bytes.len() >= 4,
    ensures
        0 <= le_value(bytes) <= u32::MAX,
{
}

/// Spelling a number and reading it back gives the number.
pub proof fn lemma_le_value_of_le_bytes(value: u32)
    ensures
        le_bytes(value).len() == 4,
        le_value(le_bytes(value)) == value,
{
}

/// Reading four bytes and spelling the number gives the same four bytes.
pub proof fn lemma_le_bytes_of_le_value(bytes: Seq<u8>)
    requires
        bytes.len() == 4,
    ensures
        le_bytes(le_value(bytes) as u32) == bytes,
{
    let b0 = bytes[0] as int;
    let b1 = bytes[1] as int;
    let b2 = bytes[2] as int;
    let b3 = bytes[3] as int;
    let v = le_value(bytes);
    assert(v % 256 == b0);
    assert(v / 256 == b1 + 256 * (b2 + 256 * b3));
    assert(v / 256 % 256 == b1);
    assert(v / 65536 == b2 + 256 * b3);
    assert(v / 65536 % 256 == b2);
    assert(v / 16777216 == b3);
}

/// The error type of `borsh`'s readers and writers, which is `std::io::Error`.
/// Nothing is read from it here: it only tells that a call failed.
#[verifier::external_type_specification]
#[verifier::external_body]
pub struct ExIoError(std::io::Error);

/// Calls `borsh::BorshDeserialize::deserialize` for `u32`, which reads four
/// bytes from the front of the slice. Claimed of it: with four bytes or more
/// it returns the number that the first four spell, least significant byte
/// first, and ignores the rest; with fewer it fails.
#[verifier::external_body]
pub(crate) fn read_u32(bytes: &[u8]) -> (r: Result<u32, std::io::Error>)
    ensures
        bytes@.len() >= 4 ==> r is Ok && r->Ok_0 == le_value(bytes@),
        bytes@.len() < 4 ==> r is Err,
{
    let mut rest: &[u8] = bytes;
    <u32 as borsh::BorshDeserialize>::deserialize(&mut rest)
}

/// Calls `borsh::BorshDeserialize::try_from_slice` for `u8`, which reads one
/// byte and rejects input that goes on after it. Claimed of it: on a slice of
/// exactly one byte it returns that byte; on any other slice it fails.
#[verifier::external_body]
pub(crate) fn read_u8(bytes: &[u8]) -> (r: Result<u8, std::io::Error>)
    ensures
        bytes@.len() == 1 ==> r is Ok && r->Ok_0 == bytes@[0],
        bytes@.len() != 1 ==> r is Err,
{
    <u8 as borsh::BorshDeserialize>::try_from_slice(bytes)
}

/// Calls `borsh::to_vec` on a `u32`, which writes the number into a fresh
/// vector. Claimed of it: it succeeds, and the vector holds exactly the four
/// bytes that spell the number, least significant byte first.
#[verifier::external_body]
pub(crate) fn write_u32(value: u32) -> (r: Result<Vec<u8>, std::io::Error>)
    ensures
        r is Ok,
        r->Ok_0@ == le_bytes(value),
{
    borsh::to_vec(&value)
}

} // verus!
