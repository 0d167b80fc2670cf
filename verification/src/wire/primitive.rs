//! The scalar fields of the wire format: fixed-width big-endian integers,
//! variable-byte integers, length-prefixed strings and binary data.

use crate::error::{DecodeError, EncodeError};
use vstd::prelude::*;
use vstd::utf8::{decode_utf8, encode_utf8, valid_utf8};

verus! {

/// What reading one item at a position of a byte sequence gives.
pub enum Parsed<T> {
    /// The item, and the position just behind it.
    Done { value: T, next: int },
    /// The sequence ends before the item does.
    Incomplete,
    /// The bytes at the position are no such item.
    Failed { error: DecodeError },
}

impl<T> Parsed<T> {
    /// The same outcome for another item; meant for an outcome that is not `Done`.
    pub open spec fn carry<U>(self) -> Parsed<U> {
        match self {
            Parsed::Failed { error } => Parsed::Failed { error },
            _ => Parsed::Incomplete,
        }
    }
}

/// The largest value that a variable-byte integer can hold.
pub const VBI_MAX: u32 = 268_435_455;

/// The greatest number of bytes in a string or in binary data.
pub const LENGTH_MAX: usize = 65_535;

/// One byte.
pub open spec fn parse_u8(s: Seq<u8>, pos: int) -> Parsed<u8> {
    if 0 <= pos < s.len() {
        Parsed::Done { value: s[pos], next: pos + 1 }
    } else {
        Parsed::Incomplete
    }
}

/// A two-byte integer, most significant byte first.
pub open spec fn parse_u16(s: Seq<u8>, pos: int) -> Parsed<u16> {
    if 0 <= pos && pos + 2 <= s.len() {
        Parsed::Done { value: (s[pos] * 256 + s[pos + 1]) as u16, next: pos + 2 }
    } else {
        Parsed::Incomplete
    }
}

/// A four-byte integer, most significant byte first.
pub open spec fn parse_u32(s: Seq<u8>, pos: int) -> Parsed<u32> {
    if 0 <= pos && pos + 4 <= s.len() {
        Parsed::Done {
            value: (s[pos] * 16_777_216 + s[pos + 1] * 65_536 + s[pos + 2] * 256 + s[pos
                + 3]) as u32,
            next: pos + 4,
        }
    } else {
        Parsed::Incomplete
    }
}

/// A variable-byte integer: up to four bytes, each holding seven bits of the
/// value in its low bits, least significant group first, and each but the
/// last with its high bit set. A fourth byte with its high bit set is an
/// error.
pub open spec fn parse_vbi(s: Seq<u8>, pos: int) -> Parsed<u32> {
    if !(0 <= pos < s.len()) {
        Parsed::Incomplete
    } else if s[pos] < 128 {
        Parsed::Done { value: s[pos] as u32, next: pos + 1 }
    } else if pos + 1 >= s.len() {
        Parsed::Incomplete
    } else if s[pos + 1] < 128 {
        Parsed::Done { value: (s[pos] % 128 + s[pos + 1] * 128) as u32, next: pos + 2 }
    } else if pos + 2 >= s.len() {
        Parsed::Incomplete
    } else if s[pos + 2] < 128 {
        Parsed::Done {
            value: (s[pos] % 128 + (s[pos + 1] % 128) * 128 + s[pos + 2] * 16_384) as u32,
            next: pos + 3,
        }
    } else if pos + 3 >= s.len() {
        Parsed::Incomplete
    } else if s[pos + 3] < 128 {
        Parsed::Done {
            value: (s[pos] % 128 + (s[pos + 1] % 128) * 128 + (s[pos + 2] % 128) * 16_384 + s[pos
                + 3] * 2_097_152) as u32,
            next: pos + 4,
        }
    } else {
        Parsed::Failed { error: DecodeError::InvalidRemainingLength }
    }
}

/// `count` bytes, as they stand.
pub open spec fn parse_bytes(s: Seq<u8>, pos: int, count: int) -> Parsed<Seq<u8>> {
    if 0 <= pos && 0 <= count && pos + count <= s.len() {
        Parsed::Done { value: s.subrange(pos, pos + count), next: pos + count }
    } else {
        Parsed::Incomplete
    }
}

/// Binary data: a two-byte length, then that many bytes.
pub open spec fn parse_binary(s: Seq<u8>, pos: int) -> Parsed<Seq<u8>> {
    match parse_u16(s, pos) {
        Parsed::Done { value, next } => parse_bytes(s, next, value as int),
        other => other.carry(),
    }
}

/// A string: binary data that is UTF-8. The length is tested first, so bytes
/// that are not all there are `Incomplete` whatever they hold.
pub open spec fn parse_string(s: Seq<u8>, pos: int) -> Parsed<Seq<char>> {
    match parse_binary(s, pos) {
        Parsed::Done { value, next } => if valid_utf8(value) {
            Parsed::Done { value: decode_utf8(value), next }
        } else {
            Parsed::Failed { error: DecodeError::InvalidUtf8 }
        },
        other => other.carry(),
    }
}

/// The two bytes of a two-byte integer.
pub open spec fn u16_bytes(v: u16) -> Seq<u8> {
    seq![(v / 256) as u8, (v % 256) as u8]
}

/// The four bytes of a four-byte integer.
pub open spec fn u32_bytes(v: u32) -> Seq<u8> {
    seq![
        (v / 16_777_216) as u8,
        ((v / 65_536) % 256) as u8,
        ((v / 256) % 256) as u8,
        (v % 256) as u8,
    ]
}

/// The bytes of a variable-byte integer, as few as hold the value. Values
/// above `VBI_MAX` have no such form.
pub open spec fn vbi_bytes(v: u32) -> Seq<u8> {
    if v < 128 {
        seq![v as u8]
    } else if v < 16_384 {
        seq![(v % 128 + 128) as u8, (v / 128) as u8]
    } else if v < 2_097_152 {
        seq![(v % 128 + 128) as u8, ((v / 128) % 128 + 128) as u8, (v / 16_384) as u8]
    } else {
        seq![
            (v % 128 + 128) as u8,
            ((v / 128) % 128 + 128) as u8,
            ((v / 16_384) % 128 + 128) as u8,
            ((v / 2_097_152) % 128) as u8,
        ]
    }
}

/// The bytes of binary data of at most `LENGTH_MAX` bytes.
pub open spec fn binary_bytes(data: Seq<u8>) -> Seq<u8> {
    u16_bytes(data.len() as u16) + data
}

/// The bytes of a string whose UTF-8 form has at most `LENGTH_MAX` bytes.
pub open spec fn string_bytes(text: Seq<char>) -> Seq<u8> {
    binary_bytes(encode_utf8(text))
}

/// Why binary data cannot be written, if it cannot.
pub open spec fn binary_fault(data: Seq<u8>) -> Option<EncodeError> {
    if data.len() > LENGTH_MAX {
        Some(EncodeError::BinaryDataTooLong)
    } else {
        None
    }
}

/// Why a string cannot be written, if it cannot.
pub open spec fn string_fault(text: Seq<char>) -> Option<EncodeError> {
    if encode_utf8(text).len() > LENGTH_MAX {
        Some(EncodeError::StringTooLong)
    } else {
        None
    }
}

/// Why a value cannot be written as a variable-byte integer, if it cannot.
pub open spec fn vbi_fault(v: u32) -> Option<EncodeError> {
    if v > VBI_MAX {
        Some(EncodeError::VariableIntTooLarge)
    } else {
        None
    }
}

/// The first of two faults.
pub open spec fn first_of(first: Option<EncodeError>, second: Option<EncodeError>) -> Option<
    EncodeError,
> {
    if first is Some {
        first
    } else {
        second
    }
}

} // verus!
