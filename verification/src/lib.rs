//! Eltoo channel messages and the channel-opening logic of the eltoo channel manager.
//!
//! The wire encodings of the eltoo peer messages are given here as functions on bytes,
//! each with a specification over a mathematical model of the message, and the central
//! property of the encodings (a decoder reads back what the encoder wrote) is proved.
pub mod ser;
pub mod keys;
pub mod tlv;
pub mod msgs;
pub mod channelmanager;
