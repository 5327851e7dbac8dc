//! Translation of key-matrix reports into MIDI note messages.
//!
//! A key-matrix controller reports one key code per poll. This library turns
//! such a code into a note event on a fourths-tuned layout and serialises the
//! event as a three-byte channel-voice message. Reading the device and
//! transmitting the bytes are left to the caller.

pub mod device;
pub mod event;
pub mod layout;
pub mod message;
pub mod number;
pub mod port;
