//! Each scalar field reads back from its bytes, wherever they stand and
//! whatever follows them.

use crate::wire::primitive::{
    binary_bytes, binary_fault, parse_binary, parse_bytes, parse_string, parse_u16, parse_u32,
    parse_u8, parse_vbi, string_bytes, string_fault, u16_bytes, u32_bytes, vbi_bytes, vbi_fault,
    Parsed,
};
use vstd::prelude::*;
use vstd::utf8::{encode_utf8, encode_utf8_decode_utf8, encode_utf8_valid_utf8};

verus! {

/// `e` stands in `s` from position `pos` on.
#[verifier::opaque]
pub open spec fn holds_at(s: Seq<u8>, pos: int, e: Seq<u8>) -> bool {
    &&& 0 <= pos
    &&& pos + e.len() <= s.len()
    &&& s.subrange(pos, pos + e.len()) == e
}

/// Where two byte strings stand one behind the other, each of them stands.
pub proof fn holds_at_split(s: Seq<u8>, pos: int, first: Seq<u8>, second: Seq<u8>)
    requires
        holds_at(s, pos, first + second),
    ensures
        holds_at(s, pos, first),
        holds_at(s, pos + first.len(), second),
{
    reveal(holds_at);
    let whole = first + second;
    assert(s.subrange(pos, pos + first.len()) =~= first) by {
        assert forall|i: int| 0 <= i < first.len() implies s.subrange(pos, pos + first.len())[i]
            == first[i] by {
            assert(s.subrange(pos, pos + whole.len())[i] == whole[i]);
        }
    }
    assert(s.subrange(pos + first.len(), pos + first.len() + second.len()) =~= second) by {
        assert forall|i: int| 0 <= i < second.len() implies s.subrange(
            pos + first.len(),
            pos + first.len() + second.len(),
        )[i] == second[i] by {
            assert(s.subrange(pos, pos + whole.len())[first.len() + i] == whole[first.len() + i]);
        }
    }
}

/// What stands in a sequence lies within it.
pub proof fn holds_at_within(s: Seq<u8>, pos: int, e: Seq<u8>)
    requires
        holds_at(s, pos, e),
    ensures
        0 <= pos,
        pos + e.len() <= s.len(),
{
    reveal(holds_at);
}

/// A sequence stands at the start of itself and of what it is the start of.
pub proof fn holds_at_start(e: Seq<u8>, rest: Seq<u8>)
    ensures
        holds_at(e + rest, 0, e),
{
    reveal(holds_at);
    assert((e + rest).subrange(0, e.len() as int) =~= e);
}

/// A byte that stands at a position is the byte of the sequence there.
pub proof fn holds_at_index(s: Seq<u8>, pos: int, e: Seq<u8>, i: int)
    requires
        holds_at(s, pos, e),
        0 <= i < e.len(),
    ensures
        s[pos + i] == e[i],
        0 <= pos,
        pos + e.len() <= s.len(),
{
    reveal(holds_at);
    assert(s.subrange(pos, pos + e.len())[i] == e[i]);
}

/// A byte reads back.
pub proof fn u8_reads_back(s: Seq<u8>, pos: int, v: u8)
    requires
        holds_at(s, pos, seq![v]),
    ensures
        parse_u8(s, pos) == (Parsed::Done { value: v, next: pos + 1 }),
{
    holds_at_index(s, pos, seq![v], 0);
}

/// A two-byte integer reads back from its bytes.
pub proof fn u16_reads_back(s: Seq<u8>, pos: int, v: u16)
    requires
        holds_at(s, pos, u16_bytes(v)),
    ensures
        parse_u16(s, pos) == (Parsed::Done { value: v, next: pos + 2 }),
{
    holds_at_index(s, pos, u16_bytes(v), 0);
    holds_at_index(s, pos, u16_bytes(v), 1);
}

/// The four bytes of a four-byte integer come to the integer.
pub proof fn u32_bytes_sum(v: u32)
    by (bit_vector)
    ensures
        (v / 16_777_216) * 16_777_216 + ((v / 65_536) % 256) * 65_536 + ((v / 256) % 256) * 256 + v
            % 256 == v,
        v / 16_777_216 < 256,
{
}

/// A four-byte integer reads back from its bytes.
pub proof fn u32_reads_back(s: Seq<u8>, pos: int, v: u32)
    requires
        holds_at(s, pos, u32_bytes(v)),
    ensures
        parse_u32(s, pos) == (Parsed::Done { value: v, next: pos + 4 }),
{
    u32_bytes_sum(v);
    holds_at_index(s, pos, u32_bytes(v), 0);
    holds_at_index(s, pos, u32_bytes(v), 1);
    holds_at_index(s, pos, u32_bytes(v), 2);
    holds_at_index(s, pos, u32_bytes(v), 3);
}

/// The seven-bit groups of a value below 268 435 456 come to the value.
pub proof fn vbi_groups_sum(v: u32)
    by (bit_vector)
    requires
        v <= 268_435_455,
    ensures
        v % 128 + (v / 128) * 128 == v,
        v % 128 + ((v / 128) % 128) * 128 + (v / 16_384) * 16_384 == v,
        v % 128 + ((v / 128) % 128) * 128 + ((v / 16_384) % 128) * 16_384 + (v / 2_097_152)
            * 2_097_152 == v,
        v / 2_097_152 < 128,
        v < 2_097_152 ==> v / 16_384 < 128,
        v < 16_384 ==> v / 128 < 128,
{
}

/// A variable-byte integer that can be written reads back from its bytes.
pub proof fn vbi_reads_back(s: Seq<u8>, pos: int, v: u32)
    requires
        vbi_fault(v) is None,
        holds_at(s, pos, vbi_bytes(v)),
    ensures
        parse_vbi(s, pos) == (Parsed::Done { value: v, next: pos + vbi_bytes(v).len() }),
{
    let e = vbi_bytes(v);
    vbi_groups_sum(v);
    holds_at_index(s, pos, e, 0);
    if v < 128 {
    } else if v < 16_384 {
        holds_at_index(s, pos, e, 1);
        assert(s[pos] == v % 128 + 128);
        assert(s[pos + 1] == v / 128);
    } else if v < 2_097_152 {
        holds_at_index(s, pos, e, 1);
        holds_at_index(s, pos, e, 2);
        assert(s[pos] == v % 128 + 128);
        assert(s[pos + 1] == (v / 128) % 128 + 128);
        assert(s[pos + 2] == v / 16_384);
    } else {
        holds_at_index(s, pos, e, 1);
        holds_at_index(s, pos, e, 2);
        holds_at_index(s, pos, e, 3);
        assert(s[pos] == v % 128 + 128);
        assert(s[pos + 1] == (v / 128) % 128 + 128);
        assert(s[pos + 2] == (v / 16_384) % 128 + 128);
        assert(s[pos + 3] == v / 2_097_152);
    }
}

/// A variable-byte integer whose bytes are cut off is incomplete.
pub proof fn cut_vbi_is_incomplete(s: Seq<u8>, pos: int, v: u32)
    requires
        vbi_fault(v) is None,
        0 <= pos <= s.len() < pos + vbi_bytes(v).len(),
        forall|i: int| 0 <= i < s.len() - pos ==> s[pos + i] == vbi_bytes(v)[i],
    ensures
        parse_vbi(s, pos) is Incomplete,
{
    let e = vbi_bytes(v);
    if s.len() - pos >= 1 {
        assert(s[pos + 0] == e[0]);
    }
    if s.len() - pos >= 2 {
        assert(s[pos + 1] == e[1]);
    }
    if s.len() - pos >= 3 {
        assert(s[pos + 2] == e[2]);
    }
}

/// Bytes of a known number read back as they stand.
pub proof fn bytes_read_back(s: Seq<u8>, pos: int, data: Seq<u8>)
    requires
        holds_at(s, pos, data),
    ensures
        parse_bytes(s, pos, data.len() as int) == (Parsed::Done {
            value: data,
            next: pos + data.len(),
        }),
{
    reveal(holds_at);
}

/// Binary data that can be written reads back from its bytes.
pub proof fn binary_reads_back(s: Seq<u8>, pos: int, data: Seq<u8>)
    requires
        binary_fault(data) is None,
        holds_at(s, pos, binary_bytes(data)),
    ensures
        parse_binary(s, pos) == (Parsed::Done { value: data, next: pos + 2 + data.len() }),
{
    holds_at_split(s, pos, u16_bytes(data.len() as u16), data);
    u16_reads_back(s, pos, data.len() as u16);
    bytes_read_back(s, pos + 2, data);
}

/// A string that can be written reads back from its bytes.
pub proof fn string_reads_back(s: Seq<u8>, pos: int, text: Seq<char>)
    requires
        string_fault(text) is None,
        holds_at(s, pos, string_bytes(text)),
    ensures
        parse_string(s, pos) == (Parsed::Done {
            value: text,
            next: pos + string_bytes(text).len(),
        }),
{
    binary_reads_back(s, pos, encode_utf8(text));
    encode_utf8_valid_utf8(text);
    encode_utf8_decode_utf8(text);
}

} // verus!
