//! Verified library for the Korg Minilogue XD synthesizer: the Korg 7-bit
//! SysEx codec, SysEx framing, the global and program data blobs, tuning
//! tables, user module management and the request/response transaction
//! logic that drives them.

pub mod codec;
pub mod text;
pub mod error;
pub mod message;
pub mod sysex;
pub mod param;
pub mod transport;
pub mod connection;
