//! Readers for the scalar fields.

use crate::buffer::string_from_utf8;
use crate::decoder::{bytes_deep_view, outcome};
use crate::error::DecodeError;
use crate::wire::primitive::{
    parse_binary, parse_bytes, parse_string, parse_u16, parse_u32, parse_u8, parse_vbi,
};
use vstd::prelude::*;
use vstd::slice::{slice_subrange, slice_to_vec};

verus! {

/// Reads one byte.
pub fn read_u8(bytes: &[u8], pos: usize) -> (r: Result<Option<(u8, usize)>, DecodeError>)
    ensures
        outcome(r) == parse_u8(bytes@, pos as int),
{
    if pos < bytes.len() {
        Ok(Some((bytes[pos], pos + 1)))
    } else {
        Ok(None)
    }
}

/// Reads a two-byte integer, most significant byte first.
pub fn read_u16(bytes: &[u8], pos: usize) -> (r: Result<Option<(u16, usize)>, DecodeError>)
    ensures
        outcome(r) == parse_u16(bytes@, pos as int),
{
    if pos > bytes.len() || bytes.len() - pos < 2 {
        return Ok(None);
    }
    let value: u16 = (bytes[pos] as u16) * 256 + (bytes[pos + 1] as u16);
    Ok(Some((value, pos + 2)))
}

/// Reads a four-byte integer, most significant byte first.
pub fn read_u32(bytes: &[u8], pos: usize) -> (r: Result<Option<(u32, usize)>, DecodeError>)
    ensures
        outcome(r) == parse_u32(bytes@, pos as int),
{
    if pos > bytes.len() || bytes.len() - pos < 4 {
        return Ok(None);
    }
    let value: u32 = (bytes[pos] as u32) * 16_777_216 + (bytes[pos + 1] as u32) * 65_536
        + (bytes[pos + 2] as u32) * 256 + (bytes[pos + 3] as u32);
    Ok(Some((value, pos + 4)))
}

/// Reads a variable-byte integer of one to four bytes.
pub fn decode_variable_int(bytes: &[u8], pos: usize) -> (r: Result<
    Option<(u32, usize)>,
    DecodeError,
>)
    ensures
        outcome(r) == parse_vbi(bytes@, pos as int),
{
    let mut multiplier: u32 = 1;
    let mut value: u32 = 0;
    let mut at: usize = pos;
    loop
        invariant_except_break
            pos <= at <= pos + 3,
            forall|i: int| pos <= i < at ==> bytes@[i] >= 128,
            at == pos ==> multiplier == 1 && value == 0,
            at == pos + 1 ==> multiplier == 128 && value == bytes@[pos as int] % 128,
            at == pos + 2 ==> multiplier == 16_384 && value == bytes@[pos as int] % 128
                + (bytes@[pos + 1] % 128) * 128,
            at == pos + 3 ==> multiplier == 2_097_152 && value == bytes@[pos as int] % 128
                + (bytes@[pos + 1] % 128) * 128 + (bytes@[pos + 2] % 128) * 16_384,
        ensures
            outcome(Ok::<_, DecodeError>(Some((value, at)))) == parse_vbi(bytes@, pos as int),
        decreases pos + 4 - at,
    {
        if at >= bytes.len() {
            return Ok(None);
        }
        let encoded_byte = bytes[at];
        if encoded_byte < 128 {
            value = value + (encoded_byte as u32) * multiplier;
            at = at + 1;
            break;
        }
        if at - pos == 3 {
            return Err(DecodeError::InvalidRemainingLength);
        }
        value = value + ((encoded_byte % 128) as u32) * multiplier;
        multiplier = multiplier * 128;
        at = at + 1;
    }
    Ok(Some((value, at)))
}

/// Reads `size` bytes as they stand.
pub fn decode_binary_data_with_size(bytes: &[u8], pos: usize, size: usize) -> (r: Result<
    Option<(Vec<u8>, usize)>,
    DecodeError,
>)
    ensures
        outcome(r) == parse_bytes(bytes@, pos as int, size as int),
{
    if pos > bytes.len() || bytes.len() - pos < size {
        return Ok(None);
    }
    let data = slice_to_vec(slice_subrange(bytes, pos, pos + size));
    proof {
        bytes_deep_view(data);
    }
    Ok(Some((data, pos + size)))
}

/// Reads binary data: a two-byte length and that many bytes.
pub fn decode_binary_data(bytes: &[u8], pos: usize) -> (r: Result<
    Option<(Vec<u8>, usize)>,
    DecodeError,
>)
    ensures
        outcome(r) == parse_binary(bytes@, pos as int),
{
    let (size, next) = match read_u16(bytes, pos)? {
        Some(read) => read,
        None => return Ok(None),
    };
    decode_binary_data_with_size(bytes, next, size as usize)
}

/// Reads a string: binary data that has to be UTF-8.
pub fn decode_string(bytes: &[u8], pos: usize) -> (r: Result<Option<(String, usize)>, DecodeError>)
    ensures
        outcome(r) == parse_string(bytes@, pos as int),
{
    let (data, next) = match decode_binary_data(bytes, pos)? {
        Some(read) => read,
        None => return Ok(None),
    };
    proof {
        bytes_deep_view(data);
    }
    match string_from_utf8(data) {
        Some(text) => Ok(Some((text, next))),
        None => Err(DecodeError::InvalidUtf8),
    }
}

} // verus!
