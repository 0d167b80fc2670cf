//! Writers for the scalar fields.

use crate::encoder::wrote;
use crate::error::EncodeError;
use crate::wire::primitive::{
    binary_bytes, binary_fault, string_bytes, string_fault, u16_bytes, u32_bytes, vbi_bytes,
    vbi_fault, LENGTH_MAX, VBI_MAX,
};
use vstd::prelude::*;

verus! {

/// Appends the bytes of `data` as they stand.
pub fn put_bytes(data: &[u8], out: &mut Vec<u8>)
    ensures
        final(out)@ == old(out)@ + data@,
{
    out.extend_from_slice(data);
    assert(out@ =~= old(out)@ + data@);
}

/// Writes a two-byte integer, most significant byte first.
pub fn encode_u16(value: u16, out: &mut Vec<u8>)
    ensures
        final(out)@ == old(out)@ + u16_bytes(value),
{
    out.push((value / 256) as u8);
    out.push((value % 256) as u8);
    assert(out@ =~= old(out)@ + u16_bytes(value));
}

/// Writes a four-byte integer, most significant byte first.
pub fn encode_u32(value: u32, out: &mut Vec<u8>)
    ensures
        final(out)@ == old(out)@ + u32_bytes(value),
{
    out.push((value / 16_777_216) as u8);
    out.push(((value / 65_536) % 256) as u8);
    out.push(((value / 256) % 256) as u8);
    out.push((value % 256) as u8);
    assert(out@ =~= old(out)@ + u32_bytes(value));
}

/// Writes a variable-byte integer in as few bytes as hold it.
pub fn encode_variable_int(value: u32, out: &mut Vec<u8>) -> (r: Result<(), EncodeError>)
    ensures
        wrote(r, old(out)@, final(out)@, vbi_fault(value), vbi_bytes(value)),
        r is Ok ==> final(out)@.len() - old(out)@.len() == if value < 128 {
            1int
        } else if value < 16_384 {
            2int
        } else if value < 2_097_152 {
            3int
        } else {
            4int
        },
{
    if value > VBI_MAX {
        return Err(EncodeError::VariableIntTooLarge);
    }
    let mut rest: u32 = value;
    let ghost mut written: int = 0;
    loop
        invariant_except_break
            0 <= written <= 3,
            out@.len() == old(out)@.len() + written,
            out@.take(old(out)@.len() as int) == old(out)@,
            value <= VBI_MAX,
            written == 0 ==> rest == value,
            written == 1 ==> rest == value / 128 && value >= 128,
            written == 2 ==> rest == value / 16_384 && value >= 16_384,
            written == 3 ==> rest == value / 2_097_152 && value >= 2_097_152,
            forall|i: int| 0 <= i < written ==> out@[old(out)@.len() + i] == vbi_bytes(value)[i],
        ensures
            out@ == old(out)@ + vbi_bytes(value),
        decreases 4 - written,
    {
        let ghost before = out@;
        let mut encoded_byte: u8 = (rest % 128) as u8;
        rest = rest / 128;
        if rest > 0 {
            encoded_byte = encoded_byte + 128;
        }
        out.push(encoded_byte);
        assert(out@.take(old(out)@.len() as int) =~= before.take(old(out)@.len() as int));
        if rest == 0 {
            assert(out@ =~= old(out)@ + vbi_bytes(value));
            break;
        }
        proof {
            written = written + 1;
        }
    }
    Ok(())
}

/// Writes binary data: a two-byte length and the bytes.
pub fn encode_binary_data(data: &[u8], out: &mut Vec<u8>) -> (r: Result<(), EncodeError>)
    ensures
        wrote(r, old(out)@, final(out)@, binary_fault(data@), binary_bytes(data@)),
{
    if data.len() > LENGTH_MAX {
        return Err(EncodeError::BinaryDataTooLong);
    }
    encode_u16(data.len() as u16, out);
    put_bytes(data, out);
    assert(out@ =~= old(out)@ + binary_bytes(data@));
    Ok(())
}

/// Writes a string: a two-byte length and the UTF-8 bytes.
pub fn encode_string(text: &str, out: &mut Vec<u8>) -> (r: Result<(), EncodeError>)
    ensures
        wrote(r, old(out)@, final(out)@, string_fault(text@), string_bytes(text@)),
{
    let data = text.as_bytes();
    if data.len() > LENGTH_MAX {
        return Err(EncodeError::StringTooLong);
    }
    encode_u16(data.len() as u16, out);
    put_bytes(data, out);
    assert(out@ =~= old(out)@ + string_bytes(text@));
    Ok(())
}

} // verus!
