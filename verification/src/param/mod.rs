//! Synth parameters: the stepped values that the program blob stores.

pub mod enums;
