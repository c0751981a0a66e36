//! The amount field: eight bytes, least significant first.

use crate::error::DispatchError;
use vstd::bytes::{
    lemma_auto_spec_u64_to_from_le_bytes, spec_u64_from_le_bytes, spec_u64_to_le_bytes,
    spec_u64_to_le_bytes_to_open, u64_from_le_bytes,
};
use vstd::prelude::*;
use vstd::slice::slice_subrange;

verus! {

/// Width of the amount field in bytes.
pub const AMOUNT_LEN: usize = 8;

/// The number that the first eight bytes of `bytes` spell, least significant
/// byte first.
pub open spec fn le_value(bytes: Seq<u8>) -> int
    recommends
        bytes.len() >= 8,
{
    bytes[0] as int
        + bytes[1] as int * 0x100
        + bytes[2] as int * 0x1_0000
        + bytes[3] as int * 0x100_0000
        + bytes[4] as int * 0x1_0000_0000
        + bytes[5] as int * 0x100_0000_0000
        + bytes[6] as int * 0x1_0000_0000_0000
        + bytes[7] as int * 0x100_0000_0000_0000
}

/// The eight bytes that spell `value`, least significant byte first.
pub open spec fn le_bytes(value: u64) -> Seq<u8> {
    seq![
        (value % 0x100) as u8,
        (value / 0x100 % 0x100) as u8,
        (value / 0x1_0000 % 0x100) as u8,
        (value / 0x100_0000 % 0x100) as u8,
        (value / 0x1_0000_0000 % 0x100) as u8,
        (value / 0x100_0000_0000 % 0x100) as u8,
        (value / 0x1_0000_0000_0000 % 0x100) as u8,
        (value / 0x100_0000_0000_0000 % 0x100) as u8,
    ]
}

/// What reading the amount off the front of `payload` gives: the value of its
/// first eight bytes, or a refusal when there are fewer.
pub open spec fn amount_field(payload: Seq<u8>) -> Result<u64, DispatchError> {
    if payload.len() < 8 {
        Err(DispatchError::InvalidInstructionData)
    } else {
        Ok(le_value(payload) as u64)
    }
}

/// Eight bytes never spell a number outside the 64-bit range.
pub proof fn lemma_le_value_bounds(bytes: Seq<u8>)
    requires
        bytes.len() >= 8,
    ensures
        0 <= le_value(bytes) <= u64::MAX,
{
}

/// Decoding undoes encoding: every 64-bit value comes back exactly.
pub proof fn lemma_decode_encode(value: u64)
    ensures
        le_bytes(value).len() == 8,
        le_value(le_bytes(value)) == value,
        amount_field(le_bytes(value)) == Ok::<u64, DispatchError>(value),
{
    lemma_le_bytes_is_to_le_bytes(value);
    lemma_auto_spec_u64_to_from_le_bytes();
    lemma_le_value_is_from_le_bytes(le_bytes(value));
}

/// Encoding undoes decoding: the eight bytes come back in their order.
pub proof fn lemma_encode_decode(bytes: Seq<u8>)
    requires
        bytes.len() >= 8,
    ensures
        le_bytes(le_value(bytes) as u64) == bytes.subrange(0, 8),
{
    let field = bytes.subrange(0, 8);
    lemma_le_value_is_from_le_bytes(field);
    lemma_auto_spec_u64_to_from_le_bytes();
    lemma_le_bytes_is_to_le_bytes(spec_u64_from_le_bytes(field));
}

/// Bytes past the eighth have no part in the amount.
pub proof fn lemma_trailing_bytes_ignored(payload: Seq<u8>)
    requires
        payload.len() >= 8,
    ensures
        le_value(payload) == le_value(payload.subrange(0, 8)),
{
}

/// The arithmetic reading of eight bytes agrees with the shifts and masks by
/// which the standard library assembles a little-endian integer.
proof fn lemma_le_value_is_from_le_bytes(bytes: Seq<u8>)
    requires
        bytes.len() == 8,
    ensures
        spec_u64_from_le_bytes(bytes) == le_value(bytes),
{
    let x = spec_u64_from_le_bytes(bytes);
    lemma_auto_spec_u64_to_from_le_bytes();
    spec_u64_to_le_bytes_to_open(x);
    assert(spec_u64_to_le_bytes(x) == bytes);
    assert(bytes[0] == (x & 0xff) as u8);
    assert(bytes[1] == ((x >> 8) & 0xff) as u8);
    assert(bytes[2] == ((x >> 16) & 0xff) as u8);
    assert(bytes[3] == ((x >> 24) & 0xff) as u8);
    assert(bytes[4] == ((x >> 32) & 0xff) as u8);
    assert(bytes[5] == ((x >> 40) & 0xff) as u8);
    assert(bytes[6] == ((x >> 48) & 0xff) as u8);
    assert(bytes[7] == ((x >> 56) & 0xff) as u8);
    assert(x == ((x & 0xff) as u8) as int
        + (((x >> 8) & 0xff) as u8) as int * 0x100
        + (((x >> 16) & 0xff) as u8) as int * 0x1_0000
        + (((x >> 24) & 0xff) as u8) as int * 0x100_0000
        + (((x >> 32) & 0xff) as u8) as int * 0x1_0000_0000
        + (((x >> 40) & 0xff) as u8) as int * 0x100_0000_0000
        + (((x >> 48) & 0xff) as u8) as int * 0x1_0000_0000_0000
        + (((x >> 56) & 0xff) as u8) as int * 0x100_0000_0000_0000) by (bit_vector);
}

/// Dividing and taking remainders picks the same bytes as shifting and
/// masking does.
proof fn lemma_le_bytes_is_to_le_bytes(value: u64)
    ensures
        le_bytes(value) == spec_u64_to_le_bytes(value),
{
    spec_u64_to_le_bytes_to_open(value);
    assert((value % 0x100) as u8 == (value & 0xff) as u8) by (bit_vector);
    assert((value / 0x100 % 0x100) as u8 == ((value >> 8) & 0xff) as u8) by (bit_vector);
    assert((value / 0x1_0000 % 0x100) as u8 == ((value >> 16) & 0xff) as u8) by (bit_vector);
    assert((value / 0x100_0000 % 0x100) as u8 == ((value >> 24) & 0xff) as u8) by (bit_vector);
    assert((value / 0x1_0000_0000 % 0x100) as u8 == ((value >> 32) & 0xff) as u8)
        by (bit_vector);
    assert((value / 0x100_0000_0000 % 0x100) as u8 == ((value >> 40) & 0xff) as u8)
        by (bit_vector);
    assert((value / 0x1_0000_0000_0000 % 0x100) as u8 == ((value >> 48) & 0xff) as u8)
        by (bit_vector);
    assert((value / 0x100_0000_0000_0000 % 0x100) as u8 == ((value >> 56) & 0xff) as u8)
        by (bit_vector);
    assert(le_bytes(value) =~= spec_u64_to_le_bytes(value));
}

/// Reads the amount off the front of `payload`: its first eight bytes as a
/// little-endian 64-bit integer. Anything after them is ignored; fewer than
/// eight bytes are refused.
pub fn decode_amount(payload: &[u8]) -> (r: Result<u64, DispatchError>)
    ensures
        r == amount_field(payload@),
        payload@.len() < 8 <==> r is Err,
        r matches Ok(v) ==> v == le_value(payload@) && le_bytes(v) == payload@.subrange(0, 8),
{
    if payload.len() < AMOUNT_LEN {
        return Err(DispatchError::InvalidInstructionData);
    }
    let field = slice_subrange(payload, 0, AMOUNT_LEN);
    let value: u64 = u64_from_le_bytes(field);
    proof {
        lemma_le_value_is_from_le_bytes(field@);
        lemma_encode_decode(payload@);
    }
    Ok(value)
}

} // verus!
