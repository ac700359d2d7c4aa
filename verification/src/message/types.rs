//! Range-checked MIDI integer types.

use vstd::prelude::*;

use crate::error::Error;

verus! {

/// A 4-bit unsigned integer (0--15), such as a MIDI channel.
#[derive(Debug, Clone, Copy, PartialEq, Eq, Hash, Structural)]
pub struct U4(u8);

impl U4 {
    #[verifier::type_invariant]
    spec fn in_range(self) -> bool {
        self.0 <= 15
    }

    /// The value held.
    pub closed spec fn value_of(self) -> u8 {
        self.0
    }

    /// The largest value (15).
    pub const MAX: u8 = 15;

    /// Creates a `U4` when `value` is at most 15, and reports the value as
    /// out of range otherwise.
    pub fn new(value: u8) -> (r: Result<Self, Error>)
        ensures
            value <= 15 ==> (r matches Ok(c) && c.value_of() == value),
            value > 15 ==> r == Error::out_of_range_result::<Self>("U4", value as i64, 0, 15),
    {
        if value > 15 {
            return Err(Error::OutOfRange { name: "U4", value: value as i64, min: 0, max: 15 });
        }
        Ok(U4(value))
    }

    /// The channel in the low nibble of `byte`.
    pub fn from_low_nibble(byte: u8) -> (c: Self)
        ensures
            c.value_of() == byte & 0x0F,
            byte <= 15 ==> c.value_of() == byte,
    {
        assert(byte & 0x0F <= 15 && (byte <= 15 ==> byte & 0x0F == byte)) by (bit_vector);
        U4(byte & 0x0F)
    }

    /// Two channels holding the same value are the same channel.
    pub proof fn lemma_value_determines(a: Self, b: Self)
        ensures
            a.value_of() == b.value_of() ==> a == b,
    {
    }

    /// The value held (0--15).
    pub fn value(self) -> (v: u8)
        ensures
            v == self.value_of(),
            v <= 15,
    {
        proof {
            use_type_invariant(&self);
        }
        self.0
    }
}

/// A 7-bit unsigned integer (0--127), such as a note number or a velocity.
#[derive(Debug, Clone, Copy, PartialEq, Eq, Hash, Structural)]
pub struct U7(u8);

impl U7 {
    #[verifier::type_invariant]
    spec fn in_range(self) -> bool {
        self.0 <= 127
    }

    /// The value held.
    pub closed spec fn value_of(self) -> u8 {
        self.0
    }

    /// The largest value (127).
    pub const MAX: u8 = 127;

    /// Creates a `U7` when `value` is at most 127, and reports the value as
    /// out of range otherwise.
    pub fn new(value: u8) -> (r: Result<Self, Error>)
        ensures
            value <= 127 ==> (r matches Ok(c) && c.value_of() == value),
            value > 127 ==> r == Error::out_of_range_result::<Self>("U7", value as i64, 0, 127),
    {
        if value > 127 {
            return Err(Error::OutOfRange { name: "U7", value: value as i64, min: 0, max: 127 });
        }
        Ok(U7(value))
    }

    /// Two values holding the same number are the same value.
    pub proof fn lemma_value_determines(a: Self, b: Self)
        ensures
            a.value_of() == b.value_of() ==> a == b,
    {
    }

    /// The value held (0--127).
    pub fn value(self) -> (v: u8)
        ensures
            v == self.value_of(),
            v <= 127,
    {
        proof {
            use_type_invariant(&self);
        }
        self.0
    }
}

} // verus!
