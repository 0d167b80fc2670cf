//! The MQTT v5.0 wire grammar as mathematics: what each field reads from a
//! byte sequence at a position, and which bytes stand for each value.

pub mod primitive;
pub mod property;
pub mod form;
pub mod packet;
