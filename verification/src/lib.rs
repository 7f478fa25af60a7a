//! Driver logic for a serial fingerprint sensor module.
//!
//! The crate holds the packet protocol of the sensor and nothing that touches
//! a byte stream: frames are built and checked here, commands are turned into
//! exchanges (one frame out, one reply of a known size in), and the replies
//! are folded into the session. Whoever owns the serial line performs the
//! exchanges and hands the replies back.
//!
//! - [`wire`]: big-endian 16-bit fields.
//! - [`codec`]: the frame, its checksum, encoding and decoding.
//! - [`command`]: status bytes, opcodes, commands, exchanges and replies.
//! - [`device`]: the session, its requests and what replies do to it.
//! - [`handshake`]: setting a session up.
//! - [`poll`]: what a status means to a sequence of commands.
//! - [`identify`], [`enroll`]: the two sequences an application runs.

pub mod codec;
pub mod command;
pub mod device;
pub mod enroll;
pub mod handshake;
pub mod identify;
pub mod poll;
pub mod wire;
