use mqtt_v5::decoder::primitive::{
    decode_binary_data, decode_binary_data_with_size, decode_string, decode_variable_int, read_u16,
    read_u32, read_u8,
};
use mqtt_v5::encoder::primitive::{
    encode_binary_data, encode_string, encode_u16, encode_u32, encode_variable_int,
};
use mqtt_v5::error::{DecodeError, EncodeError};

#[test]
fn read_u8_takes_one_byte() {
    assert_eq!(read_u8(&[0xAB, 0xCD], 0), Ok(Some((0xAB, 1))));
    assert_eq!(read_u8(&[0xAB, 0xCD], 1), Ok(Some((0xCD, 2))));
    assert_eq!(read_u8(&[0xAB, 0xCD], 2), Ok(None));
    assert_eq!(read_u8(&[0xAB, 0xCD], 7), Ok(None));
}

#[test]
fn read_u16_is_big_endian() {
    assert_eq!(read_u16(&[0x12, 0x34], 0), Ok(Some((0x1234, 2))));
    assert_eq!(read_u16(&[0xFF, 0x00, 0x3C], 1), Ok(Some((60, 3))));
    assert_eq!(read_u16(&[0x12], 0), Ok(None));
    assert_eq!(read_u16(&[0x12, 0x34], 1), Ok(None));
    assert_eq!(read_u16(&[0x12, 0x34], 3), Ok(None));
}

#[test]
fn read_u32_is_big_endian() {
    assert_eq!(read_u32(&[0x12, 0x34, 0x56, 0x78], 0), Ok(Some((0x1234_5678, 4))));
    assert_eq!(read_u32(&[0, 0xFF, 0xFF, 0xFF, 0xFF], 1), Ok(Some((u32::MAX, 5))));
    assert_eq!(read_u32(&[0x12, 0x34, 0x56], 0), Ok(None));
    assert_eq!(read_u32(&[0x12, 0x34, 0x56, 0x78], 9), Ok(None));
}

#[test]
fn variable_int_of_each_length() {
    assert_eq!(decode_variable_int(&[0x00], 0), Ok(Some((0, 1))));
    assert_eq!(decode_variable_int(&[0x7F], 0), Ok(Some((127, 1))));
    assert_eq!(decode_variable_int(&[0x80, 0x01], 0), Ok(Some((128, 2))));
    assert_eq!(decode_variable_int(&[0xFF, 0x7F], 0), Ok(Some((16_383, 2))));
    assert_eq!(decode_variable_int(&[0x80, 0x80, 0x01], 0), Ok(Some((16_384, 3))));
    assert_eq!(decode_variable_int(&[0xFF, 0xFF, 0x7F], 0), Ok(Some((2_097_151, 3))));
    assert_eq!(decode_variable_int(&[0x80, 0x80, 0x80, 0x01], 0), Ok(Some((2_097_152, 4))));
    assert_eq!(decode_variable_int(&[0xFF, 0xFF, 0xFF, 0x7F], 0), Ok(Some((268_435_455, 4))));
}

#[test]
fn variable_int_reads_from_its_position_only() {
    assert_eq!(decode_variable_int(&[0xFF, 0xC1, 0x02, 0xFF], 1), Ok(Some((321, 3))));
}

#[test]
fn variable_int_that_is_cut_off_is_incomplete() {
    assert_eq!(decode_variable_int(&[], 0), Ok(None));
    assert_eq!(decode_variable_int(&[0x80], 0), Ok(None));
    assert_eq!(decode_variable_int(&[0x80, 0x80], 0), Ok(None));
    assert_eq!(decode_variable_int(&[0x80, 0x80, 0x80], 0), Ok(None));
    assert_eq!(decode_variable_int(&[0x01], 4), Ok(None));
}

#[test]
fn variable_int_with_a_fifth_byte_is_an_error() {
    assert_eq!(
        decode_variable_int(&[0x80, 0x80, 0x80, 0x80, 0x01], 0),
        Err(DecodeError::InvalidRemainingLength)
    );
    assert_eq!(
        decode_variable_int(&[0xFF, 0xFF, 0xFF, 0xFF], 0),
        Err(DecodeError::InvalidRemainingLength)
    );
}

#[test]
fn variable_int_that_is_not_minimal_is_read() {
    assert_eq!(decode_variable_int(&[0x81, 0x00], 0), Ok(Some((1, 2))));
    assert_eq!(decode_variable_int(&[0x80, 0x80, 0x80, 0x00], 0), Ok(Some((0, 4))));
}

#[test]
fn string_is_length_prefixed_utf8() {
    assert_eq!(
        decode_string(&[0x00, 0x04, b'M', b'Q', b'T', b'T', 0x05], 0),
        Ok(Some(("MQTT".to_string(), 6)))
    );
    assert_eq!(decode_string(&[0x00, 0x00], 0), Ok(Some((String::new(), 2))));
    assert_eq!(
        decode_string(&[0x00, 0x02, 0xC3, 0xA9], 0),
        Ok(Some(("\u{e9}".to_string(), 4)))
    );
}

#[test]
fn string_that_is_cut_off_is_incomplete() {
    assert_eq!(decode_string(&[0x00], 0), Ok(None));
    assert_eq!(decode_string(&[0x00, 0x04, b'M', b'Q', b'T'], 0), Ok(None));
    // The length is not satisfied, so the bad bytes are not judged.
    assert_eq!(decode_string(&[0x00, 0x03, 0xFF, 0xFF], 0), Ok(None));
}

#[test]
fn string_that_is_not_utf8_is_an_error() {
    assert_eq!(decode_string(&[0x00, 0x02, 0xFF, 0xFF], 0), Err(DecodeError::InvalidUtf8));
    assert_eq!(decode_string(&[0x00, 0x01, 0x80], 0), Err(DecodeError::InvalidUtf8));
    // An overlong form and a surrogate.
    assert_eq!(decode_string(&[0x00, 0x02, 0xC0, 0x80], 0), Err(DecodeError::InvalidUtf8));
    assert_eq!(decode_string(&[0x00, 0x03, 0xED, 0xA0, 0x80], 0), Err(DecodeError::InvalidUtf8));
}

#[test]
fn binary_data_is_taken_and_passed() {
    assert_eq!(
        decode_binary_data(&[0x00, 0x03, 1, 2, 3, 4], 0),
        Ok(Some((vec![1, 2, 3], 5)))
    );
    assert_eq!(decode_binary_data(&[0x00, 0x00, 9], 0), Ok(Some((vec![], 2))));
    assert_eq!(decode_binary_data(&[0x00, 0x03, 1, 2], 0), Ok(None));
    assert_eq!(decode_binary_data(&[0x00], 0), Ok(None));
    assert_eq!(decode_binary_data(&[0xFF, 0xFF, 0xFF], 0), Ok(None));
}

#[test]
fn sized_binary_data() {
    assert_eq!(decode_binary_data_with_size(&[1, 2, 3, 4], 1, 2), Ok(Some((vec![2, 3], 3))));
    assert_eq!(decode_binary_data_with_size(&[1, 2, 3, 4], 4, 0), Ok(Some((vec![], 4))));
    assert_eq!(decode_binary_data_with_size(&[1, 2, 3, 4], 1, 4), Ok(None));
    assert_eq!(decode_binary_data_with_size(&[1, 2, 3, 4], 5, 0), Ok(None));
}

fn written_variable_int(value: u32) -> Vec<u8> {
    let mut out = vec![0xEE];
    assert_eq!(encode_variable_int(value, &mut out), Ok(()));
    assert_eq!(out[0], 0xEE);
    out[1..].to_vec()
}

#[test]
fn variable_int_is_written_in_the_fewest_bytes() {
    assert_eq!(written_variable_int(0), vec![0x00]);
    assert_eq!(written_variable_int(127), vec![0x7F]);
    assert_eq!(written_variable_int(128), vec![0x80, 0x01]);
    assert_eq!(written_variable_int(321), vec![0xC1, 0x02]);
    assert_eq!(written_variable_int(16_383), vec![0xFF, 0x7F]);
    assert_eq!(written_variable_int(16_384), vec![0x80, 0x80, 0x01]);
    assert_eq!(written_variable_int(2_097_151), vec![0xFF, 0xFF, 0x7F]);
    assert_eq!(written_variable_int(2_097_152), vec![0x80, 0x80, 0x80, 0x01]);
    assert_eq!(written_variable_int(268_435_455), vec![0xFF, 0xFF, 0xFF, 0x7F]);
}

#[test]
fn variable_int_lengths_by_range() {
    let mut value: u32 = 0;
    while value <= 268_435_455 {
        let expected = if value < 128 {
            1
        } else if value < 16_384 {
            2
        } else if value < 2_097_152 {
            3
        } else {
            4
        };
        let written = written_variable_int(value);
        assert_eq!(written.len(), expected);
        assert_eq!(decode_variable_int(&written, 0), Ok(Some((value, expected))));
        value = value * 3 + 1;
    }
}

#[test]
fn variable_int_above_the_limit_is_not_written() {
    let mut out = Vec::new();
    assert_eq!(encode_variable_int(268_435_456, &mut out), Err(EncodeError::VariableIntTooLarge));
    assert_eq!(encode_variable_int(u32::MAX, &mut out), Err(EncodeError::VariableIntTooLarge));
}

#[test]
fn integers_are_written_big_endian() {
    let mut out = Vec::new();
    encode_u16(0x1234, &mut out);
    encode_u32(0x89AB_CDEF, &mut out);
    encode_u16(60, &mut out);
    assert_eq!(out, vec![0x12, 0x34, 0x89, 0xAB, 0xCD, 0xEF, 0x00, 0x3C]);
}

#[test]
fn string_is_written_with_its_length() {
    let mut out = vec![7];
    assert_eq!(encode_string("MQTT", &mut out), Ok(()));
    assert_eq!(encode_string("", &mut out), Ok(()));
    assert_eq!(encode_string("\u{e9}", &mut out), Ok(()));
    assert_eq!(out, vec![7, 0, 4, b'M', b'Q', b'T', b'T', 0, 0, 0, 2, 0xC3, 0xA9]);
}

#[test]
fn string_of_the_greatest_length_is_written() {
    let text = "a".repeat(65_535);
    let mut out = Vec::new();
    assert_eq!(encode_string(&text, &mut out), Ok(()));
    assert_eq!(out.len(), 65_537);
    assert_eq!(&out[..2], &[0xFF, 0xFF]);
    assert_eq!(decode_string(&out, 0), Ok(Some((text, 65_537))));
}

#[test]
fn string_that_is_too_long_is_not_written() {
    let text = "a".repeat(65_536);
    let mut out = Vec::new();
    assert_eq!(encode_string(&text, &mut out), Err(EncodeError::StringTooLong));
    // 32 768 characters of two bytes each.
    let text = "\u{e9}".repeat(32_768);
    assert_eq!(encode_string(&text, &mut out), Err(EncodeError::StringTooLong));
}

#[test]
fn binary_data_is_written_with_its_length() {
    let mut out = Vec::new();
    assert_eq!(encode_binary_data(&[1, 2, 3], &mut out), Ok(()));
    assert_eq!(out, vec![0, 3, 1, 2, 3]);
    assert_eq!(decode_binary_data(&out, 0), Ok(Some((vec![1, 2, 3], 5))));
}

#[test]
fn binary_data_that_is_too_long_is_not_written() {
    let data = vec![0u8; 65_536];
    let mut out = Vec::new();
    assert_eq!(encode_binary_data(&data, &mut out), Err(EncodeError::BinaryDataTooLong));
    let data = vec![0u8; 65_535];
    assert_eq!(encode_binary_data(&data, &mut out), Ok(()));
    assert_eq!(out.len(), 65_537);
}
