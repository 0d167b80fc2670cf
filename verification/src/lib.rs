//! A streaming codec for MQTT v5.0 control packets.
//!
//! [`decode_mqtt`] takes one complete packet off the front of a growable byte
//! buffer and [`encode_mqtt`] appends the wire form of a packet to one. What
//! the two compute is stated over the grammar in [`wire`], and the laws that
//! tie them together are proved in [`laws`].

pub mod buffer;
pub mod codes;
pub mod decoder;
pub mod encoder;
pub mod error;
pub mod laws;
pub mod packet;
pub mod properties;
pub mod wire;

pub use decoder::decode_mqtt;
pub use encoder::{encode_mqtt, try_encode_mqtt};
pub use error::{DecodeError, EncodeError};
pub use packet::Packet;
