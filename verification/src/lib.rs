//! Driver logic for the LPC55 PUF (physically unclonable function)
//! peripheral.
//!
//! The peripheral derives secret key material from device-unique silicon
//! entropy and hands it out through a register-level command protocol. This
//! crate holds the pure, verified core of a driver for it: the bit-field
//! codec for the index blocking registers, the key-length and key-size
//! codec, the access-control decisions over the blocking registers, and the
//! polling state machines that sequence key-code generation and key
//! retrieval. Register reads and writes themselves are left to a thin shim
//! around this crate: every function here is a decision or a computation
//! over plain values, so all of it is verified and none of it touches
//! hardware.

pub mod access;
pub mod errors;
pub mod fields;
pub mod sequencer;
pub mod sizes;
