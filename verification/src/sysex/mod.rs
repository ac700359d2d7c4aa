//! SysEx layer: Korg SysEx framing, and the data blobs (global parameters,
//! program data, tuning tables, user module data) that travel inside it.

pub mod enums;
pub mod frame;
pub mod global;
pub mod helpers;
pub mod identity;
pub mod poly_chain;
pub mod transaction;
pub mod program;
pub mod tuning;
pub mod user_module;

use vstd::prelude::*;

verus! {

/// Korg manufacturer SysEx ID (0x42).
pub const KORG_ID: u8 = 0x42;

/// Minilogue XD device ID bytes `[0x00, 0x01, 0x51]`.
pub const DEVICE_ID: [u8; 3] = [0x00, 0x01, 0x51];

} // verus!
