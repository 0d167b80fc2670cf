use bytes::BytesMut;
use mqtt_v5::decoder::decode_mqtt;

fn is_incomplete(input: &[u8]) {
    let mut bytes = BytesMut::from(input);
    assert_eq!(decode_mqtt(&mut bytes), Ok(None));
    assert_eq!(&bytes[..], input);
}

#[test]
fn empty_buffer_is_incomplete() {
    is_incomplete(&[]);
}

#[test]
fn first_byte_alone_is_incomplete() {
    is_incomplete(&[0xC0]);
    is_incomplete(&[0x30]);
}

#[test]
fn cut_remaining_length_is_incomplete() {
    is_incomplete(&[0x30, 0x80]);
    is_incomplete(&[0x30, 0x80, 0x80]);
    is_incomplete(&[0x30, 0x80, 0x80, 0x80]);
}

#[test]
fn frame_with_bytes_missing_is_incomplete() {
    is_incomplete(&[0x40, 0x02, 0x00]);
    is_incomplete(&[0x30, 0x06, 0x00, 0x01, b't', 0x00, b'h']);
    is_incomplete(&[0xE0, 0x01]);
}

#[test]
fn missing_bytes_hide_later_faults() {
    // The reason code 1 is unknown, but the frame is one byte short.
    is_incomplete(&[0x20, 0x04, 0x00, 0x01, 0x00]);
}

#[test]
fn body_that_needs_more_than_the_buffer_holds_is_incomplete() {
    // The frame is whole, but a ConnectAck needs a reason code behind its flags.
    is_incomplete(&[0x20, 0x01, 0x00]);
}
