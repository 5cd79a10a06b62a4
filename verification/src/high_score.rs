//! The bytes in which the high score is saved: `bincode`'s standard
//! configuration, a little-endian variable-length integer.

use vstd::prelude::*;
use bincode::error::{DecodeError, EncodeError};

verus! {

#[verifier::external_type_specification]
#[verifier::external_body]
pub struct ExEncodeError(EncodeError);

#[verifier::external_type_specification]
#[verifier::external_body]
pub struct ExDecodeError(DecodeError);

/// The largest value written in a single byte.
pub const SINGLE_BYTE_MAX: u8 = 250;

/// The first byte of a value written in the two bytes that follow it.
pub const U16_BYTE: u8 = 251;

/// The first byte of a value written in the four bytes that follow it.
pub const U32_BYTE: u8 = 252;

/// The bytes of `v` in `bincode`'s standard configuration: the value itself
/// up to 250; else a marker byte and the value's two or four bytes, least
/// significant first.
pub open spec fn varint_u32(v: u32) -> Seq<u8> {
    if v <= SINGLE_BYTE_MAX {
        seq![v as u8]
    } else if v <= u16::MAX {
        seq![U16_BYTE, (v % 256) as u8, (v / 256) as u8]
    } else {
        seq![
            U32_BYTE,
            (v % 256) as u8,
            ((v / 256) % 256) as u8,
            ((v / 65536) % 256) as u8,
            (v / 16777216) as u8,
        ]
    }
}

/// The `u32` that `bincode`'s standard configuration reads from the front of
/// `bytes`, with the number of bytes it reads; `None` when the bytes end too
/// soon or start with a marker of a wider integer (253 to 255). Trailing
/// bytes are left unread.
pub open spec fn varint_u32_prefix(bytes: Seq<u8>) -> Option<(u32, usize)> {
    if bytes.len() == 0 {
        None
    } else if bytes[0] <= SINGLE_BYTE_MAX {
        Some((bytes[0] as u32, 1))
    } else if bytes[0] == U16_BYTE {
        if bytes.len() >= 3 {
            Some(((bytes[1] + 256 * bytes[2]) as u32, 3))
        } else {
            None
        }
    } else if bytes[0] == U32_BYTE {
        if bytes.len() >= 5 {
            Some(
                ((bytes[1] + 256 * bytes[2] + 65536 * bytes[3] + 16777216 * bytes[4]) as u32, 5),
            )
        } else {
            None
        }
    } else {
        None
    }
}

/// The high score that the saved `bytes` hold: what `bincode` reads from
/// their front, or 0 when it reads nothing.
pub open spec fn loaded_score(bytes: Seq<u8>) -> u32 {
    match varint_u32_prefix(bytes) {
        Some((v, _)) => v,
        None => 0,
    }
}

/// `bincode::encode_to_vec` of a `u32` with `bincode::config::standard()`.
/// Its source writes the variable-length integer of `varint_u32` into a
/// `Vec`, a writer that never fails, so the result is always `Ok`.
#[verifier::external_body]
fn encode_u32_standard(value: u32) -> (r: Result<Vec<u8>, EncodeError>)
    ensures
        r is Ok,
        r matches Ok(bytes) ==> bytes@ == varint_u32(value),
{
    bincode::encode_to_vec(value, bincode::config::standard())
}

/// `bincode::decode_from_slice` of a `u32` with
/// `bincode::config::standard()`: its source reads the variable-length
/// integer of `varint_u32_prefix` from the front of the slice and returns it
/// with the number of bytes read, or an error where that gives `None`.
#[verifier::external_body]
fn decode_u32_standard(bytes: &[u8]) -> (r: Result<(u32, usize), DecodeError>)
    ensures
        r is Ok <==> varint_u32_prefix(bytes@) is Some,
        r matches Ok(read) ==> varint_u32_prefix(bytes@) == Some(read),
{
    bincode::decode_from_slice(bytes, bincode::config::standard())
}

/// The bytes under which the high score `data` is saved.
pub fn encode_high_score(data: u32) -> (r: Vec<u8>)
    ensures
        r@ == varint_u32(data),
{
    match encode_u32_standard(data) {
        Ok(bytes) => bytes,
        Err(_) => {
            proof {
                assert(false);
            }
            Vec::new()
        },
    }
}

/// The high score that the saved `bytes` hold, 0 when they hold none.
pub fn decode_high_score(bytes: &[u8]) -> (r: u32)
    ensures
        r == loaded_score(bytes@),
{
    match decode_u32_standard(bytes) {
        Ok((decoded, _len)) => decoded,
        Err(_) => 0,
    }
}

/// Reading back what was saved gives the saved score, whatever follows the
/// saved bytes, and reads exactly the saved bytes.
pub proof fn lemma_high_score_roundtrip(score: u32, rest: Seq<u8>)
    ensures
        varint_u32_prefix(varint_u32(score) + rest) == Some((score, varint_u32(score).len() as usize)),
        loaded_score(varint_u32(score) + rest) == score,
        1 <= varint_u32(score).len() <= 5,
{
    let bytes = varint_u32(score) + rest;
    if score <= SINGLE_BYTE_MAX {
    } else if score <= u16::MAX {
        assert(bytes[1] + 256 * bytes[2] == score);
    } else {
        assert(bytes[1] + 256 * bytes[2] + 65536 * bytes[3] + 16777216 * bytes[4] == score);
    }
}

} // verus!
