//! Stepped parameters of the program blob, each mapped one to one to its
//! program value `0..COUNT`.

use vstd::prelude::*;

use crate::error::Error;

verus! {

/// VCO waveform.
#[derive(Debug, Clone, Copy, PartialEq, Eq, Hash, Structural)]
#[non_exhaustive]
pub enum VcoWave {
    /// Square wave.
    Sqr,
    /// Triangle wave.
    Tri,
    /// Sawtooth wave.
    Saw,
}

impl VcoWave {
    /// The number of variants; their program values are `0..COUNT`.
    pub const COUNT: u8 = 3;

    /// The program value of each variant.
    pub open spec fn spec_program_value(self) -> u8 {
        match self {
            VcoWave::Sqr => 0,
            VcoWave::Tri => 1,
            VcoWave::Saw => 2,
        }
    }

    /// The variant with program value `v`, or the out-of-range error.
    pub open spec fn spec_from_program_value(v: u8) -> Result<VcoWave, Error> {
        match v {
            0 => Ok(VcoWave::Sqr),
            1 => Ok(VcoWave::Tri),
            2 => Ok(VcoWave::Saw),
            _ => Error::out_of_range_result("VcoWave", v as i64, 0, 2),
        }
    }

    /// Convert a raw program value to its variant; values without a variant are
    /// reported as out of range (0--2).
    pub fn from_program_value(v: u8) -> (r: Result<Self, Error>)
        ensures
            r == Self::spec_from_program_value(v),
    {
        match v {
            0 => Ok(Self::Sqr),
            1 => Ok(Self::Tri),
            2 => Ok(Self::Saw),
            _ => Err(Error::OutOfRange { name: "VcoWave", value: v as i64, min: 0, max: 2 }),
        }
    }

    /// Convert this variant to its program value.
    pub fn to_program_value(self) -> (v: u8)
        ensures
            v == self.spec_program_value(),
            v < Self::COUNT,
    {
        match self {
            Self::Sqr => 0,
            Self::Tri => 1,
            Self::Saw => 2,
        }
    }

    /// Converting between variants and program values loses nothing: each variant
    /// comes back from its program value, and each accepted program value comes back
    /// from its variant.
    pub proof fn lemma_program_value_round_trip(self, v: u8)
        ensures
            Self::spec_from_program_value(self.spec_program_value()) == Ok::<Self, Error>(self),
            Self::spec_from_program_value(v) matches Ok(e) ==> e.spec_program_value() == v,
            Self::spec_from_program_value(v) is Ok <==> v < Self::COUNT,
    {
    }
}

/// Oscillator octave (footage).
#[derive(Debug, Clone, Copy, PartialEq, Eq, Hash, Structural)]
#[non_exhaustive]
pub enum VcoOctave {
    /// 16 feet.
    Sixteen,
    /// 8 feet.
    Eight,
    /// 4 feet.
    Four,
    /// 2 feet.
    Two,
}

impl VcoOctave {
    /// The number of variants; their program values are `0..COUNT`.
    pub const COUNT: u8 = 4;

    /// The program value of each variant.
    pub open spec fn spec_program_value(self) -> u8 {
        match self {
            VcoOctave::Sixteen => 0,
            VcoOctave::Eight => 1,
            VcoOctave::Four => 2,
            VcoOctave::Two => 3,
        }
    }

    /// The variant with program value `v`, or the out-of-range error.
    pub open spec fn spec_from_program_value(v: u8) -> Result<VcoOctave, Error> {
        match v {
            0 => Ok(VcoOctave::Sixteen),
            1 => Ok(VcoOctave::Eight),
            2 => Ok(VcoOctave::Four),
            3 => Ok(VcoOctave::Two),
            _ => Error::out_of_range_result("VcoOctave", v as i64, 0, 3),
        }
    }

    /// Convert a raw program value to its variant; values without a variant are
    /// reported as out of range (0--3).
    pub fn from_program_value(v: u8) -> (r: Result<Self, Error>)
        ensures
            r == Self::spec_from_program_value(v),
    {
        match v {
            0 => Ok(Self::Sixteen),
            1 => Ok(Self::Eight),
            2 => Ok(Self::Four),
            3 => Ok(Self::Two),
            _ => Err(Error::OutOfRange { name: "VcoOctave", value: v as i64, min: 0, max: 3 }),
        }
    }

    /// Convert this variant to its program value.
    pub fn to_program_value(self) -> (v: u8)
        ensures
            v == self.spec_program_value(),
            v < Self::COUNT,
    {
        match self {
            Self::Sixteen => 0,
            Self::Eight => 1,
            Self::Four => 2,
            Self::Two => 3,
        }
    }

    /// Converting between variants and program values loses nothing: each variant
    /// comes back from its program value, and each accepted program value comes back
    /// from its variant.
    pub proof fn lemma_program_value_round_trip(self, v: u8)
        ensures
            Self::spec_from_program_value(self.spec_program_value()) == Ok::<Self, Error>(self),
            Self::spec_from_program_value(v) matches Ok(e) ==> e.spec_program_value() == v,
            Self::spec_from_program_value(v) is Ok <==> v < Self::COUNT,
    {
    }
}

/// Multi-engine oscillator type.
#[derive(Debug, Clone, Copy, PartialEq, Eq, Hash, Structural)]
#[non_exhaustive]
pub enum MultiType {
    /// Noise generator.
    Noise,
    /// Variable phase modulation oscillator.
    Vpm,
    /// User oscillator.
    User,
}

impl MultiType {
    /// The number of variants; their program values are `0..COUNT`.
    pub const COUNT: u8 = 3;

    /// The program value of each variant.
    pub open spec fn spec_program_value(self) -> u8 {
        match self {
            MultiType::Noise => 0,
            MultiType::Vpm => 1,
            MultiType::User => 2,
        }
    }

    /// The variant with program value `v`, or the out-of-range error.
    pub open spec fn spec_from_program_value(v: u8) -> Result<MultiType, Error> {
        match v {
            0 => Ok(MultiType::Noise),
            1 => Ok(MultiType::Vpm),
            2 => Ok(MultiType::User),
            _ => Error::out_of_range_result("MultiType", v as i64, 0, 2),
        }
    }

    /// Convert a raw program value to its variant; values without a variant are
    /// reported as out of range (0--2).
    pub fn from_program_value(v: u8) -> (r: Result<Self, Error>)
        ensures
            r == Self::spec_from_program_value(v),
    {
        match v {
            0 => Ok(Self::Noise),
            1 => Ok(Self::Vpm),
            2 => Ok(Self::User),
            _ => Err(Error::OutOfRange { name: "MultiType", value: v as i64, min: 0, max: 2 }),
        }
    }

    /// Convert this variant to its program value.
    pub fn to_program_value(self) -> (v: u8)
        ensures
            v == self.spec_program_value(),
            v < Self::COUNT,
    {
        match self {
            Self::Noise => 0,
            Self::Vpm => 1,
            Self::User => 2,
        }
    }

    /// Converting between variants and program values loses nothing: each variant
    /// comes back from its program value, and each accepted program value comes back
    /// from its variant.
    pub proof fn lemma_program_value_round_trip(self, v: u8)
        ensures
            Self::spec_from_program_value(self.spec_program_value()) == Ok::<Self, Error>(self),
            Self::spec_from_program_value(v) matches Ok(e) ==> e.spec_program_value() == v,
            Self::spec_from_program_value(v) is Ok <==> v < Self::COUNT,
    {
    }
}

/// Noise type of the multi engine.
#[derive(Debug, Clone, Copy, PartialEq, Eq, Hash, Structural)]
#[non_exhaustive]
pub enum MultiSelectNoise {
    /// High-pass noise.
    High,
    /// Low-pass noise.
    Low,
    /// Band-pass (peak) noise.
    Peak,
    /// Decimator noise.
    Decim,
}

impl MultiSelectNoise {
    /// The number of variants; their program values are `0..COUNT`.
    pub const COUNT: u8 = 4;

    /// The program value of each variant.
    pub open spec fn spec_program_value(self) -> u8 {
        match self {
            MultiSelectNoise::High => 0,
            MultiSelectNoise::Low => 1,
            MultiSelectNoise::Peak => 2,
            MultiSelectNoise::Decim => 3,
        }
    }

    /// The variant with program value `v`, or the out-of-range error.
    pub open spec fn spec_from_program_value(v: u8) -> Result<MultiSelectNoise, Error> {
        match v {
            0 => Ok(MultiSelectNoise::High),
            1 => Ok(MultiSelectNoise::Low),
            2 => Ok(MultiSelectNoise::Peak),
            3 => Ok(MultiSelectNoise::Decim),
            _ => Error::out_of_range_result("MultiSelectNoise", v as i64, 0, 3),
        }
    }

    /// Convert a raw program value to its variant; values without a variant are
    /// reported as out of range (0--3).
    pub fn from_program_value(v: u8) -> (r: Result<Self, Error>)
        ensures
            r == Self::spec_from_program_value(v),
    {
        match v {
            0 => Ok(Self::High),
            1 => Ok(Self::Low),
            2 => Ok(Self::Peak),
            3 => Ok(Self::Decim),
            _ => Err(Error::OutOfRange { name: "MultiSelectNoise", value: v as i64, min: 0, max: 3 }),
        }
    }

    /// Convert this variant to its program value.
    pub fn to_program_value(self) -> (v: u8)
        ensures
            v == self.spec_program_value(),
            v < Self::COUNT,
    {
        match self {
            Self::High => 0,
            Self::Low => 1,
            Self::Peak => 2,
            Self::Decim => 3,
        }
    }

    /// Converting between variants and program values loses nothing: each variant
    /// comes back from its program value, and each accepted program value comes back
    /// from its variant.
    pub proof fn lemma_program_value_round_trip(self, v: u8)
        ensures
            Self::spec_from_program_value(self.spec_program_value()) == Ok::<Self, Error>(self),
            Self::spec_from_program_value(v) matches Ok(e) ==> e.spec_program_value() == v,
            Self::spec_from_program_value(v) is Ok <==> v < Self::COUNT,
    {
    }
}

/// VPM oscillator type of the multi engine.
#[derive(Debug, Clone, Copy, PartialEq, Eq, Hash, Structural)]
#[non_exhaustive]
pub enum MultiSelectVpm {
    /// VPM type Sin1.
    Sin1,
    /// VPM type Sin2.
    Sin2,
    /// VPM type Sin3.
    Sin3,
    /// VPM type Sin4.
    Sin4,
    /// VPM type Saw1.
    Saw1,
    /// VPM type Saw2.
    Saw2,
    /// VPM type Squ1.
    Squ1,
    /// VPM type Squ2.
    Squ2,
    /// VPM type Fat1.
    Fat1,
    /// VPM type Fat2.
    Fat2,
    /// VPM type Air1.
    Air1,
    /// VPM type Air2.
    Air2,
    /// VPM type Decay1.
    Decay1,
    /// VPM type Decay2.
    Decay2,
    /// VPM type Creep.
    Creep,
    /// VPM type Throat.
    Throat,
}

impl MultiSelectVpm {
    /// The number of variants; their program values are `0..COUNT`.
    pub const COUNT: u8 = 16;

    /// The program value of each variant.
    pub open spec fn spec_program_value(self) -> u8 {
        match self {
            MultiSelectVpm::Sin1 => 0,
            MultiSelectVpm::Sin2 => 1,
            MultiSelectVpm::Sin3 => 2,
            MultiSelectVpm::Sin4 => 3,
            MultiSelectVpm::Saw1 => 4,
            MultiSelectVpm::Saw2 => 5,
            MultiSelectVpm::Squ1 => 6,
            MultiSelectVpm::Squ2 => 7,
            MultiSelectVpm::Fat1 => 8,
            MultiSelectVpm::Fat2 => 9,
            MultiSelectVpm::Air1 => 10,
            MultiSelectVpm::Air2 => 11,
            MultiSelectVpm::Decay1 => 12,
            MultiSelectVpm::Decay2 => 13,
            MultiSelectVpm::Creep => 14,
            MultiSelectVpm::Throat => 15,
        }
    }

    /// The variant with program value `v`, or the out-of-range error.
    pub open spec fn spec_from_program_value(v: u8) -> Result<MultiSelectVpm, Error> {
        match v {
            0 => Ok(MultiSelectVpm::Sin1),
            1 => Ok(MultiSelectVpm::Sin2),
            2 => Ok(MultiSelectVpm::Sin3),
            3 => Ok(MultiSelectVpm::Sin4),
            4 => Ok(MultiSelectVpm::Saw1),
            5 => Ok(MultiSelectVpm::Saw2),
            6 => Ok(MultiSelectVpm::Squ1),
            7 => Ok(MultiSelectVpm::Squ2),
            8 => Ok(MultiSelectVpm::Fat1),
            9 => Ok(MultiSelectVpm::Fat2),
            10 => Ok(MultiSelectVpm::Air1),
            11 => Ok(MultiSelectVpm::Air2),
            12 => Ok(MultiSelectVpm::Decay1),
            13 => Ok(MultiSelectVpm::Decay2),
            14 => Ok(MultiSelectVpm::Creep),
            15 => Ok(MultiSelectVpm::Throat),
            _ => Error::out_of_range_result("MultiSelectVpm", v as i64, 0, 15),
        }
    }

    /// Convert a raw program value to its variant; values without a variant are
    /// reported as out of range (0--15).
    pub fn from_program_value(v: u8) -> (r: Result<Self, Error>)
        ensures
            r == Self::spec_from_program_value(v),
    {
        match v {
            0 => Ok(Self::Sin1),
            1 => Ok(Self::Sin2),
            2 => Ok(Self::Sin3),
            3 => Ok(Self::Sin4),
            4 => Ok(Self::Saw1),
            5 => Ok(Self::Saw2),
            6 => Ok(Self::Squ1),
            7 => Ok(Self::Squ2),
            8 => Ok(Self::Fat1),
            9 => Ok(Self::Fat2),
            10 => Ok(Self::Air1),
            11 => Ok(Self::Air2),
            12 => Ok(Self::Decay1),
            13 => Ok(Self::Decay2),
            14 => Ok(Self::Creep),
            15 => Ok(Self::Throat),
            _ => Err(Error::OutOfRange { name: "MultiSelectVpm", value: v as i64, min: 0, max: 15 }),
        }
    }

    /// Convert this variant to its program value.
    pub fn to_program_value(self) -> (v: u8)
        ensures
            v == self.spec_program_value(),
            v < Self::COUNT,
    {
        match self {
            Self::Sin1 => 0,
            Self::Sin2 => 1,
            Self::Sin3 => 2,
            Self::Sin4 => 3,
            Self::Saw1 => 4,
            Self::Saw2 => 5,
            Self::Squ1 => 6,
            Self::Squ2 => 7,
            Self::Fat1 => 8,
            Self::Fat2 => 9,
            Self::Air1 => 10,
            Self::Air2 => 11,
            Self::Decay1 => 12,
            Self::Decay2 => 13,
            Self::Creep => 14,
            Self::Throat => 15,
        }
    }

    /// Converting between variants and program values loses nothing: each variant
    /// comes back from its program value, and each accepted program value comes back
    /// from its variant.
    pub proof fn lemma_program_value_round_trip(self, v: u8)
        ensures
            Self::spec_from_program_value(self.spec_program_value()) == Ok::<Self, Error>(self),
            Self::spec_from_program_value(v) matches Ok(e) ==> e.spec_program_value() == v,
            Self::spec_from_program_value(v) is Ok <==> v < Self::COUNT,
    {
    }
}

/// User oscillator slot of the multi engine.
#[derive(Debug, Clone, Copy, PartialEq, Eq, Hash, Structural)]
#[non_exhaustive]
pub enum MultiSelectUser {
    /// User oscillator slot 1.
    User1,
    /// User oscillator slot 2.
    User2,
    /// User oscillator slot 3.
    User3,
    /// User oscillator slot 4.
    User4,
    /// User oscillator slot 5.
    User5,
    /// User oscillator slot 6.
    User6,
    /// User oscillator slot 7.
    User7,
    /// User oscillator slot 8.
    User8,
    /// User oscillator slot 9.
    User9,
    /// User oscillator slot 10.
    User10,
    /// User oscillator slot 11.
    User11,
    /// User oscillator slot 12.
    User12,
    /// User oscillator slot 13.
    User13,
    /// User oscillator slot 14.
    User14,
    /// User oscillator slot 15.
    User15,
    /// User oscillator slot 16.
    User16,
}

impl MultiSelectUser {
    /// The number of variants; their program values are `0..COUNT`.
    pub const COUNT: u8 = 16;

    /// The program value of each variant.
    pub open spec fn spec_program_value(self) -> u8 {
        match self {
            MultiSelectUser::User1 => 0,
            MultiSelectUser::User2 => 1,
            MultiSelectUser::User3 => 2,
            MultiSelectUser::User4 => 3,
            MultiSelectUser::User5 => 4,
            MultiSelectUser::User6 => 5,
            MultiSelectUser::User7 => 6,
            MultiSelectUser::User8 => 7,
            MultiSelectUser::User9 => 8,
            MultiSelectUser::User10 => 9,
            MultiSelectUser::User11 => 10,
            MultiSelectUser::User12 => 11,
            MultiSelectUser::User13 => 12,
            MultiSelectUser::User14 => 13,
            MultiSelectUser::User15 => 14,
            MultiSelectUser::User16 => 15,
        }
    }

    /// The variant with program value `v`, or the out-of-range error.
    pub open spec fn spec_from_program_value(v: u8) -> Result<MultiSelectUser, Error> {
        match v {
            0 => Ok(MultiSelectUser::User1),
            1 => Ok(MultiSelectUser::User2),
            2 => Ok(MultiSelectUser::User3),
            3 => Ok(MultiSelectUser::User4),
            4 => Ok(MultiSelectUser::User5),
            5 => Ok(MultiSelectUser::User6),
            6 => Ok(MultiSelectUser::User7),
            7 => Ok(MultiSelectUser::User8),
            8 => Ok(MultiSelectUser::User9),
            9 => Ok(MultiSelectUser::User10),
            10 => Ok(MultiSelectUser::User11),
            11 => Ok(MultiSelectUser::User12),
            12 => Ok(MultiSelectUser::User13),
            13 => Ok(MultiSelectUser::User14),
            14 => Ok(MultiSelectUser::User15),
            15 => Ok(MultiSelectUser::User16),
            _ => Error::out_of_range_result("MultiSelectUser", v as i64, 0, 15),
        }
    }

    /// Convert a raw program value to its variant; values without a variant are
    /// reported as out of range (0--15).
    pub fn from_program_value(v: u8) -> (r: Result<Self, Error>)
        ensures
            r == Self::spec_from_program_value(v),
    {
        match v {
            0 => Ok(Self::User1),
            1 => Ok(Self::User2),
            2 => Ok(Self::User3),
            3 => Ok(Self::User4),
            4 => Ok(Self::User5),
            5 => Ok(Self::User6),
            6 => Ok(Self::User7),
            7 => Ok(Self::User8),
            8 => Ok(Self::User9),
            9 => Ok(Self::User10),
            10 => Ok(Self::User11),
            11 => Ok(Self::User12),
            12 => Ok(Self::User13),
            13 => Ok(Self::User14),
            14 => Ok(Self::User15),
            15 => Ok(Self::User16),
            _ => Err(Error::OutOfRange { name: "MultiSelectUser", value: v as i64, min: 0, max: 15 }),
        }
    }

    /// Convert this variant to its program value.
    pub fn to_program_value(self) -> (v: u8)
        ensures
            v == self.spec_program_value(),
            v < Self::COUNT,
    {
        match self {
            Self::User1 => 0,
            Self::User2 => 1,
            Self::User3 => 2,
            Self::User4 => 3,
            Self::User5 => 4,
            Self::User6 => 5,
            Self::User7 => 6,
            Self::User8 => 7,
            Self::User9 => 8,
            Self::User10 => 9,
            Self::User11 => 10,
            Self::User12 => 11,
            Self::User13 => 12,
            Self::User14 => 13,
            Self::User15 => 14,
            Self::User16 => 15,
        }
    }

    /// Converting between variants and program values loses nothing: each variant
    /// comes back from its program value, and each accepted program value comes back
    /// from its variant.
    pub proof fn lemma_program_value_round_trip(self, v: u8)
        ensures
            Self::spec_from_program_value(self.spec_program_value()) == Ok::<Self, Error>(self),
            Self::spec_from_program_value(v) matches Ok(e) ==> e.spec_program_value() == v,
            Self::spec_from_program_value(v) is Ok <==> v < Self::COUNT,
    {
    }
}

/// Filter drive amount.
#[derive(Debug, Clone, Copy, PartialEq, Eq, Hash, Structural)]
#[non_exhaustive]
pub enum CutoffDrive {
    /// No drive.
    Off,
    /// 50% drive.
    Half,
    /// 100% drive.
    Full,
}

impl CutoffDrive {
    /// The number of variants; their program values are `0..COUNT`.
    pub const COUNT: u8 = 3;

    /// The program value of each variant.
    pub open spec fn spec_program_value(self) -> u8 {
        match self {
            CutoffDrive::Off => 0,
            CutoffDrive::Half => 1,
            CutoffDrive::Full => 2,
        }
    }

    /// The variant with program value `v`, or the out-of-range error.
    pub open spec fn spec_from_program_value(v: u8) -> Result<CutoffDrive, Error> {
        match v {
            0 => Ok(CutoffDrive::Off),
            1 => Ok(CutoffDrive::Half),
            2 => Ok(CutoffDrive::Full),
            _ => Error::out_of_range_result("CutoffDrive", v as i64, 0, 2),
        }
    }

    /// Convert a raw program value to its variant; values without a variant are
    /// reported as out of range (0--2).
    pub fn from_program_value(v: u8) -> (r: Result<Self, Error>)
        ensures
            r == Self::spec_from_program_value(v),
    {
        match v {
            0 => Ok(Self::Off),
            1 => Ok(Self::Half),
            2 => Ok(Self::Full),
            _ => Err(Error::OutOfRange { name: "CutoffDrive", value: v as i64, min: 0, max: 2 }),
        }
    }

    /// Convert this variant to its program value.
    pub fn to_program_value(self) -> (v: u8)
        ensures
            v == self.spec_program_value(),
            v < Self::COUNT,
    {
        match self {
            Self::Off => 0,
            Self::Half => 1,
            Self::Full => 2,
        }
    }

    /// Converting between variants and program values loses nothing: each variant
    /// comes back from its program value, and each accepted program value comes back
    /// from its variant.
    pub proof fn lemma_program_value_round_trip(self, v: u8)
        ensures
            Self::spec_from_program_value(self.spec_program_value()) == Ok::<Self, Error>(self),
            Self::spec_from_program_value(v) matches Ok(e) ==> e.spec_program_value() == v,
            Self::spec_from_program_value(v) is Ok <==> v < Self::COUNT,
    {
    }
}

/// Filter key tracking amount.
#[derive(Debug, Clone, Copy, PartialEq, Eq, Hash, Structural)]
#[non_exhaustive]
pub enum CutoffKeytrack {
    /// No key tracking.
    Off,
    /// 50% key tracking.
    Half,
    /// 100% key tracking.
    Full,
}

impl CutoffKeytrack {
    /// The number of variants; their program values are `0..COUNT`.
    pub const COUNT: u8 = 3;

    /// The program value of each variant.
    pub open spec fn spec_program_value(self) -> u8 {
        match self {
            CutoffKeytrack::Off => 0,
            CutoffKeytrack::Half => 1,
            CutoffKeytrack::Full => 2,
        }
    }

    /// The variant with program value `v`, or the out-of-range error.
    pub open spec fn spec_from_program_value(v: u8) -> Result<CutoffKeytrack, Error> {
        match v {
            0 => Ok(CutoffKeytrack::Off),
            1 => Ok(CutoffKeytrack::Half),
            2 => Ok(CutoffKeytrack::Full),
            _ => Error::out_of_range_result("CutoffKeytrack", v as i64, 0, 2),
        }
    }

    /// Convert a raw program value to its variant; values without a variant are
    /// reported as out of range (0--2).
    pub fn from_program_value(v: u8) -> (r: Result<Self, Error>)
        ensures
            r == Self::spec_from_program_value(v),
    {
        match v {
            0 => Ok(Self::Off),
            1 => Ok(Self::Half),
            2 => Ok(Self::Full),
            _ => Err(Error::OutOfRange { name: "CutoffKeytrack", value: v as i64, min: 0, max: 2 }),
        }
    }

    /// Convert this variant to its program value.
    pub fn to_program_value(self) -> (v: u8)
        ensures
            v == self.spec_program_value(),
            v < Self::COUNT,
    {
        match self {
            Self::Off => 0,
            Self::Half => 1,
            Self::Full => 2,
        }
    }

    /// Converting between variants and program values loses nothing: each variant
    /// comes back from its program value, and each accepted program value comes back
    /// from its variant.
    pub proof fn lemma_program_value_round_trip(self, v: u8)
        ensures
            Self::spec_from_program_value(self.spec_program_value()) == Ok::<Self, Error>(self),
            Self::spec_from_program_value(v) matches Ok(e) ==> e.spec_program_value() == v,
            Self::spec_from_program_value(v) is Ok <==> v < Self::COUNT,
    {
    }
}

/// Modulation EG destination.
#[derive(Debug, Clone, Copy, PartialEq, Eq, Hash, Structural)]
#[non_exhaustive]
pub enum EgTarget {
    /// Filter cutoff.
    Cutoff,
    /// VCO 2 pitch.
    Pitch2,
    /// Pitch of all oscillators.
    Pitch,
}

impl EgTarget {
    /// The number of variants; their program values are `0..COUNT`.
    pub const COUNT: u8 = 3;

    /// The program value of each variant.
    pub open spec fn spec_program_value(self) -> u8 {
        match self {
            EgTarget::Cutoff => 0,
            EgTarget::Pitch2 => 1,
            EgTarget::Pitch => 2,
        }
    }

    /// The variant with program value `v`, or the out-of-range error.
    pub open spec fn spec_from_program_value(v: u8) -> Result<EgTarget, Error> {
        match v {
            0 => Ok(EgTarget::Cutoff),
            1 => Ok(EgTarget::Pitch2),
            2 => Ok(EgTarget::Pitch),
            _ => Error::out_of_range_result("EgTarget", v as i64, 0, 2),
        }
    }

    /// Convert a raw program value to its variant; values without a variant are
    /// reported as out of range (0--2).
    pub fn from_program_value(v: u8) -> (r: Result<Self, Error>)
        ensures
            r == Self::spec_from_program_value(v),
    {
        match v {
            0 => Ok(Self::Cutoff),
            1 => Ok(Self::Pitch2),
            2 => Ok(Self::Pitch),
            _ => Err(Error::OutOfRange { name: "EgTarget", value: v as i64, min: 0, max: 2 }),
        }
    }

    /// Convert this variant to its program value.
    pub fn to_program_value(self) -> (v: u8)
        ensures
            v == self.spec_program_value(),
            v < Self::COUNT,
    {
        match self {
            Self::Cutoff => 0,
            Self::Pitch2 => 1,
            Self::Pitch => 2,
        }
    }

    /// Converting between variants and program values loses nothing: each variant
    /// comes back from its program value, and each accepted program value comes back
    /// from its variant.
    pub proof fn lemma_program_value_round_trip(self, v: u8)
        ensures
            Self::spec_from_program_value(self.spec_program_value()) == Ok::<Self, Error>(self),
            Self::spec_from_program_value(v) matches Ok(e) ==> e.spec_program_value() == v,
            Self::spec_from_program_value(v) is Ok <==> v < Self::COUNT,
    {
    }
}

/// LFO waveform.
#[derive(Debug, Clone, Copy, PartialEq, Eq, Hash, Structural)]
#[non_exhaustive]
pub enum LfoWave {
    /// Square wave.
    Sqr,
    /// Triangle wave.
    Tri,
    /// Sawtooth wave.
    Saw,
}

impl LfoWave {
    /// The number of variants; their program values are `0..COUNT`.
    pub const COUNT: u8 = 3;

    /// The program value of each variant.
    pub open spec fn spec_program_value(self) -> u8 {
        match self {
            LfoWave::Sqr => 0,
            LfoWave::Tri => 1,
            LfoWave::Saw => 2,
        }
    }

    /// The variant with program value `v`, or the out-of-range error.
    pub open spec fn spec_from_program_value(v: u8) -> Result<LfoWave, Error> {
        match v {
            0 => Ok(LfoWave::Sqr),
            1 => Ok(LfoWave::Tri),
            2 => Ok(LfoWave::Saw),
            _ => Error::out_of_range_result("LfoWave", v as i64, 0, 2),
        }
    }

    /// Convert a raw program value to its variant; values without a variant are
    /// reported as out of range (0--2).
    pub fn from_program_value(v: u8) -> (r: Result<Self, Error>)
        ensures
            r == Self::spec_from_program_value(v),
    {
        match v {
            0 => Ok(Self::Sqr),
            1 => Ok(Self::Tri),
            2 => Ok(Self::Saw),
            _ => Err(Error::OutOfRange { name: "LfoWave", value: v as i64, min: 0, max: 2 }),
        }
    }

    /// Convert this variant to its program value.
    pub fn to_program_value(self) -> (v: u8)
        ensures
            v == self.spec_program_value(),
            v < Self::COUNT,
    {
        match self {
            Self::Sqr => 0,
            Self::Tri => 1,
            Self::Saw => 2,
        }
    }

    /// Converting between variants and program values loses nothing: each variant
    /// comes back from its program value, and each accepted program value comes back
    /// from its variant.
    pub proof fn lemma_program_value_round_trip(self, v: u8)
        ensures
            Self::spec_from_program_value(self.spec_program_value()) == Ok::<Self, Error>(self),
            Self::spec_from_program_value(v) matches Ok(e) ==> e.spec_program_value() == v,
            Self::spec_from_program_value(v) is Ok <==> v < Self::COUNT,
    {
    }
}

/// LFO mode.
#[derive(Debug, Clone, Copy, PartialEq, Eq, Hash, Structural)]
#[non_exhaustive]
pub enum LfoMode {
    /// Runs once per note.
    OneShot,
    /// Free running.
    Normal,
    /// Synchronized to the tempo.
    Bpm,
}

impl LfoMode {
    /// The number of variants; their program values are `0..COUNT`.
    pub const COUNT: u8 = 3;

    /// The program value of each variant.
    pub open spec fn spec_program_value(self) -> u8 {
        match self {
            LfoMode::OneShot => 0,
            LfoMode::Normal => 1,
            LfoMode::Bpm => 2,
        }
    }

    /// The variant with program value `v`, or the out-of-range error.
    pub open spec fn spec_from_program_value(v: u8) -> Result<LfoMode, Error> {
        match v {
            0 => Ok(LfoMode::OneShot),
            1 => Ok(LfoMode::Normal),
            2 => Ok(LfoMode::Bpm),
            _ => Error::out_of_range_result("LfoMode", v as i64, 0, 2),
        }
    }

    /// Convert a raw program value to its variant; values without a variant are
    /// reported as out of range (0--2).
    pub fn from_program_value(v: u8) -> (r: Result<Self, Error>)
        ensures
            r == Self::spec_from_program_value(v),
    {
        match v {
            0 => Ok(Self::OneShot),
            1 => Ok(Self::Normal),
            2 => Ok(Self::Bpm),
            _ => Err(Error::OutOfRange { name: "LfoMode", value: v as i64, min: 0, max: 2 }),
        }
    }

    /// Convert this variant to its program value.
    pub fn to_program_value(self) -> (v: u8)
        ensures
            v == self.spec_program_value(),
            v < Self::COUNT,
    {
        match self {
            Self::OneShot => 0,
            Self::Normal => 1,
            Self::Bpm => 2,
        }
    }

    /// Converting between variants and program values loses nothing: each variant
    /// comes back from its program value, and each accepted program value comes back
    /// from its variant.
    pub proof fn lemma_program_value_round_trip(self, v: u8)
        ensures
            Self::spec_from_program_value(self.spec_program_value()) == Ok::<Self, Error>(self),
            Self::spec_from_program_value(v) matches Ok(e) ==> e.spec_program_value() == v,
            Self::spec_from_program_value(v) is Ok <==> v < Self::COUNT,
    {
    }
}

/// LFO destination.
#[derive(Debug, Clone, Copy, PartialEq, Eq, Hash, Structural)]
#[non_exhaustive]
pub enum LfoTarget {
    /// Filter cutoff.
    Cutoff,
    /// Oscillator shape.
    Shape,
    /// Oscillator pitch.
    Pitch,
}

impl LfoTarget {
    /// The number of variants; their program values are `0..COUNT`.
    pub const COUNT: u8 = 3;

    /// The program value of each variant.
    pub open spec fn spec_program_value(self) -> u8 {
        match self {
            LfoTarget::Cutoff => 0,
            LfoTarget::Shape => 1,
            LfoTarget::Pitch => 2,
        }
    }

    /// The variant with program value `v`, or the out-of-range error.
    pub open spec fn spec_from_program_value(v: u8) -> Result<LfoTarget, Error> {
        match v {
            0 => Ok(LfoTarget::Cutoff),
            1 => Ok(LfoTarget::Shape),
            2 => Ok(LfoTarget::Pitch),
            _ => Error::out_of_range_result("LfoTarget", v as i64, 0, 2),
        }
    }

    /// Convert a raw program value to its variant; values without a variant are
    /// reported as out of range (0--2).
    pub fn from_program_value(v: u8) -> (r: Result<Self, Error>)
        ensures
            r == Self::spec_from_program_value(v),
    {
        match v {
            0 => Ok(Self::Cutoff),
            1 => Ok(Self::Shape),
            2 => Ok(Self::Pitch),
            _ => Err(Error::OutOfRange { name: "LfoTarget", value: v as i64, min: 0, max: 2 }),
        }
    }

    /// Convert this variant to its program value.
    pub fn to_program_value(self) -> (v: u8)
        ensures
            v == self.spec_program_value(),
            v < Self::COUNT,
    {
        match self {
            Self::Cutoff => 0,
            Self::Shape => 1,
            Self::Pitch => 2,
        }
    }

    /// Converting between variants and program values loses nothing: each variant
    /// comes back from its program value, and each accepted program value comes back
    /// from its variant.
    pub proof fn lemma_program_value_round_trip(self, v: u8)
        ensures
            Self::spec_from_program_value(self.spec_program_value()) == Ok::<Self, Error>(self),
            Self::spec_from_program_value(v) matches Ok(e) ==> e.spec_program_value() == v,
            Self::spec_from_program_value(v) is Ok <==> v < Self::COUNT,
    {
    }
}

/// Delay effect type.
#[derive(Debug, Clone, Copy, PartialEq, Eq, Hash, Structural)]
#[non_exhaustive]
pub enum DelaySubType {
    /// Stereo delay.
    Stereo,
    /// Mono delay.
    Mono,
    /// Ping-pong delay.
    PingPong,
    /// High-pass delay.
    HiPass,
    /// Tape delay.
    Tape,
    /// One-tap delay.
    OneTap,
    /// Tempo-synced stereo delay.
    StereoBpm,
    /// Tempo-synced mono delay.
    MonoBpm,
    /// Tempo-synced ping-pong delay.
    PingBpm,
    /// Tempo-synced high-pass delay.
    HiPassBpm,
    /// Tempo-synced tape delay.
    TapeBpm,
    /// Doubling delay.
    Doubling,
    /// User delay slot 1.
    User1,
    /// User delay slot 2.
    User2,
    /// User delay slot 3.
    User3,
    /// User delay slot 4.
    User4,
    /// User delay slot 5.
    User5,
    /// User delay slot 6.
    User6,
    /// User delay slot 7.
    User7,
    /// User delay slot 8.
    User8,
}

impl DelaySubType {
    /// The number of variants; their program values are `0..COUNT`.
    pub const COUNT: u8 = 20;

    /// The program value of each variant.
    pub open spec fn spec_program_value(self) -> u8 {
        match self {
            DelaySubType::Stereo => 0,
            DelaySubType::Mono => 1,
            DelaySubType::PingPong => 2,
            DelaySubType::HiPass => 3,
            DelaySubType::Tape => 4,
            DelaySubType::OneTap => 5,
            DelaySubType::StereoBpm => 6,
            DelaySubType::MonoBpm => 7,
            DelaySubType::PingBpm => 8,
            DelaySubType::HiPassBpm => 9,
            DelaySubType::TapeBpm => 10,
            DelaySubType::Doubling => 11,
            DelaySubType::User1 => 12,
            DelaySubType::User2 => 13,
            DelaySubType::User3 => 14,
            DelaySubType::User4 => 15,
            DelaySubType::User5 => 16,
            DelaySubType::User6 => 17,
            DelaySubType::User7 => 18,
            DelaySubType::User8 => 19,
        }
    }

    /// The variant with program value `v`, or the out-of-range error.
    pub open spec fn spec_from_program_value(v: u8) -> Result<DelaySubType, Error> {
        match v {
            0 => Ok(DelaySubType::Stereo),
            1 => Ok(DelaySubType::Mono),
            2 => Ok(DelaySubType::PingPong),
            3 => Ok(DelaySubType::HiPass),
            4 => Ok(DelaySubType::Tape),
            5 => Ok(DelaySubType::OneTap),
            6 => Ok(DelaySubType::StereoBpm),
            7 => Ok(DelaySubType::MonoBpm),
            8 => Ok(DelaySubType::PingBpm),
            9 => Ok(DelaySubType::HiPassBpm),
            10 => Ok(DelaySubType::TapeBpm),
            11 => Ok(DelaySubType::Doubling),
            12 => Ok(DelaySubType::User1),
            13 => Ok(DelaySubType::User2),
            14 => Ok(DelaySubType::User3),
            15 => Ok(DelaySubType::User4),
            16 => Ok(DelaySubType::User5),
            17 => Ok(DelaySubType::User6),
            18 => Ok(DelaySubType::User7),
            19 => Ok(DelaySubType::User8),
            _ => Error::out_of_range_result("DelaySubType", v as i64, 0, 19),
        }
    }

    /// Convert a raw program value to its variant; values without a variant are
    /// reported as out of range (0--19).
    pub fn from_program_value(v: u8) -> (r: Result<Self, Error>)
        ensures
            r == Self::spec_from_program_value(v),
    {
        match v {
            0 => Ok(Self::Stereo),
            1 => Ok(Self::Mono),
            2 => Ok(Self::PingPong),
            3 => Ok(Self::HiPass),
            4 => Ok(Self::Tape),
            5 => Ok(Self::OneTap),
            6 => Ok(Self::StereoBpm),
            7 => Ok(Self::MonoBpm),
            8 => Ok(Self::PingBpm),
            9 => Ok(Self::HiPassBpm),
            10 => Ok(Self::TapeBpm),
            11 => Ok(Self::Doubling),
            12 => Ok(Self::User1),
            13 => Ok(Self::User2),
            14 => Ok(Self::User3),
            15 => Ok(Self::User4),
            16 => Ok(Self::User5),
            17 => Ok(Self::User6),
            18 => Ok(Self::User7),
            19 => Ok(Self::User8),
            _ => Err(Error::OutOfRange { name: "DelaySubType", value: v as i64, min: 0, max: 19 }),
        }
    }

    /// Convert this variant to its program value.
    pub fn to_program_value(self) -> (v: u8)
        ensures
            v == self.spec_program_value(),
            v < Self::COUNT,
    {
        match self {
            Self::Stereo => 0,
            Self::Mono => 1,
            Self::PingPong => 2,
            Self::HiPass => 3,
            Self::Tape => 4,
            Self::OneTap => 5,
            Self::StereoBpm => 6,
            Self::MonoBpm => 7,
            Self::PingBpm => 8,
            Self::HiPassBpm => 9,
            Self::TapeBpm => 10,
            Self::Doubling => 11,
            Self::User1 => 12,
            Self::User2 => 13,
            Self::User3 => 14,
            Self::User4 => 15,
            Self::User5 => 16,
            Self::User6 => 17,
            Self::User7 => 18,
            Self::User8 => 19,
        }
    }

    /// Converting between variants and program values loses nothing: each variant
    /// comes back from its program value, and each accepted program value comes back
    /// from its variant.
    pub proof fn lemma_program_value_round_trip(self, v: u8)
        ensures
            Self::spec_from_program_value(self.spec_program_value()) == Ok::<Self, Error>(self),
            Self::spec_from_program_value(v) matches Ok(e) ==> e.spec_program_value() == v,
            Self::spec_from_program_value(v) is Ok <==> v < Self::COUNT,
    {
    }
}

/// Reverb effect type.
#[derive(Debug, Clone, Copy, PartialEq, Eq, Hash, Structural)]
#[non_exhaustive]
pub enum ReverbSubType {
    /// Hall reverb.
    Hall,
    /// Smooth reverb.
    Smooth,
    /// Arena reverb.
    Arena,
    /// Plate reverb.
    Plate,
    /// Room reverb.
    Room,
    /// Early reflections.
    EarlyRef,
    /// Space reverb.
    Space,
    /// Riser reverb.
    Riser,
    /// Submarine reverb.
    Submarine,
    /// Horror reverb.
    Horror,
    /// User reverb slot 1.
    User1,
    /// User reverb slot 2.
    User2,
    /// User reverb slot 3.
    User3,
    /// User reverb slot 4.
    User4,
    /// User reverb slot 5.
    User5,
    /// User reverb slot 6.
    User6,
    /// User reverb slot 7.
    User7,
    /// User reverb slot 8.
    User8,
}

impl ReverbSubType {
    /// The number of variants; their program values are `0..COUNT`.
    pub const COUNT: u8 = 18;

    /// The program value of each variant.
    pub open spec fn spec_program_value(self) -> u8 {
        match self {
            ReverbSubType::Hall => 0,
            ReverbSubType::Smooth => 1,
            ReverbSubType::Arena => 2,
            ReverbSubType::Plate => 3,
            ReverbSubType::Room => 4,
            ReverbSubType::EarlyRef => 5,
            ReverbSubType::Space => 6,
            ReverbSubType::Riser => 7,
            ReverbSubType::Submarine => 8,
            ReverbSubType::Horror => 9,
            ReverbSubType::User1 => 10,
            ReverbSubType::User2 => 11,
            ReverbSubType::User3 => 12,
            ReverbSubType::User4 => 13,
            ReverbSubType::User5 => 14,
            ReverbSubType::User6 => 15,
            ReverbSubType::User7 => 16,
            ReverbSubType::User8 => 17,
        }
    }

    /// The variant with program value `v`, or the out-of-range error.
    pub open spec fn spec_from_program_value(v: u8) -> Result<ReverbSubType, Error> {
        match v {
            0 => Ok(ReverbSubType::Hall),
            1 => Ok(ReverbSubType::Smooth),
            2 => Ok(ReverbSubType::Arena),
            3 => Ok(ReverbSubType::Plate),
            4 => Ok(ReverbSubType::Room),
            5 => Ok(ReverbSubType::EarlyRef),
            6 => Ok(ReverbSubType::Space),
            7 => Ok(ReverbSubType::Riser),
            8 => Ok(ReverbSubType::Submarine),
            9 => Ok(ReverbSubType::Horror),
            10 => Ok(ReverbSubType::User1),
            11 => Ok(ReverbSubType::User2),
            12 => Ok(ReverbSubType::User3),
            13 => Ok(ReverbSubType::User4),
            14 => Ok(ReverbSubType::User5),
            15 => Ok(ReverbSubType::User6),
            16 => Ok(ReverbSubType::User7),
            17 => Ok(ReverbSubType::User8),
            _ => Error::out_of_range_result("ReverbSubType", v as i64, 0, 17),
        }
    }

    /// Convert a raw program value to its variant; values without a variant are
    /// reported as out of range (0--17).
    pub fn from_program_value(v: u8) -> (r: Result<Self, Error>)
        ensures
            r == Self::spec_from_program_value(v),
    {
        match v {
            0 => Ok(Self::Hall),
            1 => Ok(Self::Smooth),
            2 => Ok(Self::Arena),
            3 => Ok(Self::Plate),
            4 => Ok(Self::Room),
            5 => Ok(Self::EarlyRef),
            6 => Ok(Self::Space),
            7 => Ok(Self::Riser),
            8 => Ok(Self::Submarine),
            9 => Ok(Self::Horror),
            10 => Ok(Self::User1),
            11 => Ok(Self::User2),
            12 => Ok(Self::User3),
            13 => Ok(Self::User4),
            14 => Ok(Self::User5),
            15 => Ok(Self::User6),
            16 => Ok(Self::User7),
            17 => Ok(Self::User8),
            _ => Err(Error::OutOfRange { name: "ReverbSubType", value: v as i64, min: 0, max: 17 }),
        }
    }

    /// Convert this variant to its program value.
    pub fn to_program_value(self) -> (v: u8)
        ensures
            v == self.spec_program_value(),
            v < Self::COUNT,
    {
        match self {
            Self::Hall => 0,
            Self::Smooth => 1,
            Self::Arena => 2,
            Self::Plate => 3,
            Self::Room => 4,
            Self::EarlyRef => 5,
            Self::Space => 6,
            Self::Riser => 7,
            Self::Submarine => 8,
            Self::Horror => 9,
            Self::User1 => 10,
            Self::User2 => 11,
            Self::User3 => 12,
            Self::User4 => 13,
            Self::User5 => 14,
            Self::User6 => 15,
            Self::User7 => 16,
            Self::User8 => 17,
        }
    }

    /// Converting between variants and program values loses nothing: each variant
    /// comes back from its program value, and each accepted program value comes back
    /// from its variant.
    pub proof fn lemma_program_value_round_trip(self, v: u8)
        ensures
            Self::spec_from_program_value(self.spec_program_value()) == Ok::<Self, Error>(self),
            Self::spec_from_program_value(v) matches Ok(e) ==> e.spec_program_value() == v,
            Self::spec_from_program_value(v) is Ok <==> v < Self::COUNT,
    {
    }
}

/// Destination of the joystick, the CV inputs and aftertouch.
#[derive(Debug, Clone, Copy, PartialEq, Eq, Hash, Structural)]
#[non_exhaustive]
pub enum ModAssignTarget {
    /// No assignment.
    Unassigned,
    /// Sequencer gate time.
    GateTime,
    /// Pitch bend.
    PitchBend,
    /// Portamento on/off.
    Portamento,
    /// Voice mode depth.
    VoiceModeDepth,
    /// VCO 1 pitch.
    Vco1Pitch,
    /// VCO 1 shape.
    Vco1Shape,
    /// VCO 2 pitch.
    Vco2Pitch,
    /// VCO 2 shape.
    Vco2Shape,
    /// Cross modulation depth.
    CrossModDepth,
    /// Multi-engine shape.
    MultiShape,
    /// Multi-engine shift shape.
    MultiShiftShape,
    /// VCO 1 level.
    Vco1Level,
    /// VCO 2 level.
    Vco2Level,
    /// Multi-engine level.
    MultiLevel,
    /// Modulation EG intensity.
    EgInt,
    /// Filter cutoff.
    Cutoff,
    /// Filter resonance.
    Resonance,
    /// Amp EG attack.
    AmpEgAttack,
    /// Amp EG decay.
    AmpEgDecay,
    /// Amp EG sustain.
    AmpEgSustain,
    /// Amp EG release.
    AmpEgRelease,
    /// Modulation EG attack.
    EgAttack,
    /// Modulation EG decay.
    EgDecay,
    /// LFO rate.
    LfoRate,
    /// LFO intensity.
    LfoInt,
    /// Mod-FX time.
    ModFxTime,
    /// Mod-FX depth.
    ModFxDepth,
    /// Portamento time.
    PortamentoTime,
}

impl ModAssignTarget {
    /// The number of variants; their program values are `0..COUNT`.
    pub const COUNT: u8 = 29;

    /// The program value of each variant.
    pub open spec fn spec_program_value(self) -> u8 {
        match self {
            ModAssignTarget::Unassigned => 0,
            ModAssignTarget::GateTime => 1,
            ModAssignTarget::PitchBend => 2,
            ModAssignTarget::Portamento => 3,
            ModAssignTarget::VoiceModeDepth => 4,
            ModAssignTarget::Vco1Pitch => 5,
            ModAssignTarget::Vco1Shape => 6,
            ModAssignTarget::Vco2Pitch => 7,
            ModAssignTarget::Vco2Shape => 8,
            ModAssignTarget::CrossModDepth => 9,
            ModAssignTarget::MultiShape => 10,
            ModAssignTarget::MultiShiftShape => 11,
            ModAssignTarget::Vco1Level => 12,
            ModAssignTarget::Vco2Level => 13,
            ModAssignTarget::MultiLevel => 14,
            ModAssignTarget::EgInt => 15,
            ModAssignTarget::Cutoff => 16,
            ModAssignTarget::Resonance => 17,
            ModAssignTarget::AmpEgAttack => 18,
            ModAssignTarget::AmpEgDecay => 19,
            ModAssignTarget::AmpEgSustain => 20,
            ModAssignTarget::AmpEgRelease => 21,
            ModAssignTarget::EgAttack => 22,
            ModAssignTarget::EgDecay => 23,
            ModAssignTarget::LfoRate => 24,
            ModAssignTarget::LfoInt => 25,
            ModAssignTarget::ModFxTime => 26,
            ModAssignTarget::ModFxDepth => 27,
            ModAssignTarget::PortamentoTime => 28,
        }
    }

    /// The variant with program value `v`, or the out-of-range error.
    pub open spec fn spec_from_program_value(v: u8) -> Result<ModAssignTarget, Error> {
        match v {
            0 => Ok(ModAssignTarget::Unassigned),
            1 => Ok(ModAssignTarget::GateTime),
            2 => Ok(ModAssignTarget::PitchBend),
            3 => Ok(ModAssignTarget::Portamento),
            4 => Ok(ModAssignTarget::VoiceModeDepth),
            5 => Ok(ModAssignTarget::Vco1Pitch),
            6 => Ok(ModAssignTarget::Vco1Shape),
            7 => Ok(ModAssignTarget::Vco2Pitch),
            8 => Ok(ModAssignTarget::Vco2Shape),
            9 => Ok(ModAssignTarget::CrossModDepth),
            10 => Ok(ModAssignTarget::MultiShape),
            11 => Ok(ModAssignTarget::MultiShiftShape),
            12 => Ok(ModAssignTarget::Vco1Level),
            13 => Ok(ModAssignTarget::Vco2Level),
            14 => Ok(ModAssignTarget::MultiLevel),
            15 => Ok(ModAssignTarget::EgInt),
            16 => Ok(ModAssignTarget::Cutoff),
            17 => Ok(ModAssignTarget::Resonance),
            18 => Ok(ModAssignTarget::AmpEgAttack),
            19 => Ok(ModAssignTarget::AmpEgDecay),
            20 => Ok(ModAssignTarget::AmpEgSustain),
            21 => Ok(ModAssignTarget::AmpEgRelease),
            22 => Ok(ModAssignTarget::EgAttack),
            23 => Ok(ModAssignTarget::EgDecay),
            24 => Ok(ModAssignTarget::LfoRate),
            25 => Ok(ModAssignTarget::LfoInt),
            26 => Ok(ModAssignTarget::ModFxTime),
            27 => Ok(ModAssignTarget::ModFxDepth),
            28 => Ok(ModAssignTarget::PortamentoTime),
            _ => Error::out_of_range_result("ModAssignTarget", v as i64, 0, 28),
        }
    }

    /// Convert a raw program value to its variant; values without a variant are
    /// reported as out of range (0--28).
    pub fn from_program_value(v: u8) -> (r: Result<Self, Error>)
        ensures
            r == Self::spec_from_program_value(v),
    {
        match v {
            0 => Ok(Self::Unassigned),
            1 => Ok(Self::GateTime),
            2 => Ok(Self::PitchBend),
            3 => Ok(Self::Portamento),
            4 => Ok(Self::VoiceModeDepth),
            5 => Ok(Self::Vco1Pitch),
            6 => Ok(Self::Vco1Shape),
            7 => Ok(Self::Vco2Pitch),
            8 => Ok(Self::Vco2Shape),
            9 => Ok(Self::CrossModDepth),
            10 => Ok(Self::MultiShape),
            11 => Ok(Self::MultiShiftShape),
            12 => Ok(Self::Vco1Level),
            13 => Ok(Self::Vco2Level),
            14 => Ok(Self::MultiLevel),
            15 => Ok(Self::EgInt),
            16 => Ok(Self::Cutoff),
            17 => Ok(Self::Resonance),
            18 => Ok(Self::AmpEgAttack),
            19 => Ok(Self::AmpEgDecay),
            20 => Ok(Self::AmpEgSustain),
            21 => Ok(Self::AmpEgRelease),
            22 => Ok(Self::EgAttack),
            23 => Ok(Self::EgDecay),
            24 => Ok(Self::LfoRate),
            25 => Ok(Self::LfoInt),
            26 => Ok(Self::ModFxTime),
            27 => Ok(Self::ModFxDepth),
            28 => Ok(Self::PortamentoTime),
            _ => Err(Error::OutOfRange { name: "ModAssignTarget", value: v as i64, min: 0, max: 28 }),
        }
    }

    /// Convert this variant to its program value.
    pub fn to_program_value(self) -> (v: u8)
        ensures
            v == self.spec_program_value(),
            v < Self::COUNT,
    {
        match self {
            Self::Unassigned => 0,
            Self::GateTime => 1,
            Self::PitchBend => 2,
            Self::Portamento => 3,
            Self::VoiceModeDepth => 4,
            Self::Vco1Pitch => 5,
            Self::Vco1Shape => 6,
            Self::Vco2Pitch => 7,
            Self::Vco2Shape => 8,
            Self::CrossModDepth => 9,
            Self::MultiShape => 10,
            Self::MultiShiftShape => 11,
            Self::Vco1Level => 12,
            Self::Vco2Level => 13,
            Self::MultiLevel => 14,
            Self::EgInt => 15,
            Self::Cutoff => 16,
            Self::Resonance => 17,
            Self::AmpEgAttack => 18,
            Self::AmpEgDecay => 19,
            Self::AmpEgSustain => 20,
            Self::AmpEgRelease => 21,
            Self::EgAttack => 22,
            Self::EgDecay => 23,
            Self::LfoRate => 24,
            Self::LfoInt => 25,
            Self::ModFxTime => 26,
            Self::ModFxDepth => 27,
            Self::PortamentoTime => 28,
        }
    }

    /// Converting between variants and program values loses nothing: each variant
    /// comes back from its program value, and each accepted program value comes back
    /// from its variant.
    pub proof fn lemma_program_value_round_trip(self, v: u8)
        ensures
            Self::spec_from_program_value(self.spec_program_value()) == Ok::<Self, Error>(self),
            Self::spec_from_program_value(v) matches Ok(e) ==> e.spec_program_value() == v,
            Self::spec_from_program_value(v) is Ok <==> v < Self::COUNT,
    {
    }
}

/// CV input mode.
#[derive(Debug, Clone, Copy, PartialEq, Eq, Hash, Structural)]
#[non_exhaustive]
pub enum CvInMode {
    /// The CV inputs modulate assigned parameters.
    Modulation,
    /// CV/gate with positive gate.
    CvGatePlus,
    /// CV/gate with negative gate.
    CvGateMinus,
}

impl CvInMode {
    /// The number of variants; their program values are `0..COUNT`.
    pub const COUNT: u8 = 3;

    /// The program value of each variant.
    pub open spec fn spec_program_value(self) -> u8 {
        match self {
            CvInMode::Modulation => 0,
            CvInMode::CvGatePlus => 1,
            CvInMode::CvGateMinus => 2,
        }
    }

    /// The variant with program value `v`, or the out-of-range error.
    pub open spec fn spec_from_program_value(v: u8) -> Result<CvInMode, Error> {
        match v {
            0 => Ok(CvInMode::Modulation),
            1 => Ok(CvInMode::CvGatePlus),
            2 => Ok(CvInMode::CvGateMinus),
            _ => Error::out_of_range_result("CvInMode", v as i64, 0, 2),
        }
    }

    /// Convert a raw program value to its variant; values without a variant are
    /// reported as out of range (0--2).
    pub fn from_program_value(v: u8) -> (r: Result<Self, Error>)
        ensures
            r == Self::spec_from_program_value(v),
    {
        match v {
            0 => Ok(Self::Modulation),
            1 => Ok(Self::CvGatePlus),
            2 => Ok(Self::CvGateMinus),
            _ => Err(Error::OutOfRange { name: "CvInMode", value: v as i64, min: 0, max: 2 }),
        }
    }

    /// Convert this variant to its program value.
    pub fn to_program_value(self) -> (v: u8)
        ensures
            v == self.spec_program_value(),
            v < Self::COUNT,
    {
        match self {
            Self::Modulation => 0,
            Self::CvGatePlus => 1,
            Self::CvGateMinus => 2,
        }
    }

    /// Converting between variants and program values loses nothing: each variant
    /// comes back from its program value, and each accepted program value comes back
    /// from its variant.
    pub proof fn lemma_program_value_round_trip(self, v: u8)
        ensures
            Self::spec_from_program_value(self.spec_program_value()) == Ok::<Self, Error>(self),
            Self::spec_from_program_value(v) matches Ok(e) ==> e.spec_program_value() == v,
            Self::spec_from_program_value(v) is Ok <==> v < Self::COUNT,
    {
    }
}

/// Micro-tuning selection.
#[derive(Debug, Clone, Copy, PartialEq, Eq, Hash, Structural)]
#[non_exhaustive]
pub enum MicroTuning {
    /// Equal temperament.
    EqualTemp,
    /// Pure major.
    PureMajor,
    /// Pure minor.
    PureMinor,
    /// Pythagorean.
    Pythagorean,
    /// Werckmeister.
    Werckmeister,
    /// Kirnberger.
    Kirnberger,
    /// Slendro.
    Slendro,
    /// Pelog.
    Pelog,
    /// Ionian.
    Ionian,
    /// Dorian.
    Dorian,
    /// Aeolian.
    Aeolian,
    /// Major pentatonic.
    MajorPenta,
    /// Minor pentatonic.
    MinorPenta,
    /// Reverse.
    Reverse,
    /// AFX 001.
    Afx001,
    /// AFX 002.
    Afx002,
    /// AFX 003.
    Afx003,
    /// AFX 004.
    Afx004,
    /// AFX 005.
    Afx005,
    /// AFX 006.
    Afx006,
    /// User scale 1.
    UserScale1,
    /// User scale 2.
    UserScale2,
    /// User scale 3.
    UserScale3,
    /// User scale 4.
    UserScale4,
    /// User scale 5.
    UserScale5,
    /// User scale 6.
    UserScale6,
    /// User octave 1.
    UserOctave1,
    /// User octave 2.
    UserOctave2,
    /// User octave 3.
    UserOctave3,
    /// User octave 4.
    UserOctave4,
    /// User octave 5.
    UserOctave5,
    /// User octave 6.
    UserOctave6,
    /// Extended tuning 1.
    Extended1,
    /// Extended tuning 2.
    Extended2,
    /// Extended tuning 3.
    Extended3,
    /// Extended tuning 4.
    Extended4,
    /// Extended tuning 5.
    Extended5,
    /// Extended tuning 6.
    Extended6,
    /// Extended tuning 7.
    Extended7,
}

impl MicroTuning {
    /// The number of variants; their program values are `0..COUNT`.
    pub const COUNT: u8 = 39;

    /// The program value of each variant.
    pub open spec fn spec_program_value(self) -> u8 {
        match self {
            MicroTuning::EqualTemp => 0,
            MicroTuning::PureMajor => 1,
            MicroTuning::PureMinor => 2,
            MicroTuning::Pythagorean => 3,
            MicroTuning::Werckmeister => 4,
            MicroTuning::Kirnberger => 5,
            MicroTuning::Slendro => 6,
            MicroTuning::Pelog => 7,
            MicroTuning::Ionian => 8,
            MicroTuning::Dorian => 9,
            MicroTuning::Aeolian => 10,
            MicroTuning::MajorPenta => 11,
            MicroTuning::MinorPenta => 12,
            MicroTuning::Reverse => 13,
            MicroTuning::Afx001 => 14,
            MicroTuning::Afx002 => 15,
            MicroTuning::Afx003 => 16,
            MicroTuning::Afx004 => 17,
            MicroTuning::Afx005 => 18,
            MicroTuning::Afx006 => 19,
            MicroTuning::UserScale1 => 20,
            MicroTuning::UserScale2 => 21,
            MicroTuning::UserScale3 => 22,
            MicroTuning::UserScale4 => 23,
            MicroTuning::UserScale5 => 24,
            MicroTuning::UserScale6 => 25,
            MicroTuning::UserOctave1 => 26,
            MicroTuning::UserOctave2 => 27,
            MicroTuning::UserOctave3 => 28,
            MicroTuning::UserOctave4 => 29,
            MicroTuning::UserOctave5 => 30,
            MicroTuning::UserOctave6 => 31,
            MicroTuning::Extended1 => 32,
            MicroTuning::Extended2 => 33,
            MicroTuning::Extended3 => 34,
            MicroTuning::Extended4 => 35,
            MicroTuning::Extended5 => 36,
            MicroTuning::Extended6 => 37,
            MicroTuning::Extended7 => 38,
        }
    }

    /// The variant with program value `v`, or the out-of-range error.
    pub open spec fn spec_from_program_value(v: u8) -> Result<MicroTuning, Error> {
        match v {
            0 => Ok(MicroTuning::EqualTemp),
            1 => Ok(MicroTuning::PureMajor),
            2 => Ok(MicroTuning::PureMinor),
            3 => Ok(MicroTuning::Pythagorean),
            4 => Ok(MicroTuning::Werckmeister),
            5 => Ok(MicroTuning::Kirnberger),
            6 => Ok(MicroTuning::Slendro),
            7 => Ok(MicroTuning::Pelog),
            8 => Ok(MicroTuning::Ionian),
            9 => Ok(MicroTuning::Dorian),
            10 => Ok(MicroTuning::Aeolian),
            11 => Ok(MicroTuning::MajorPenta),
            12 => Ok(MicroTuning::MinorPenta),
            13 => Ok(MicroTuning::Reverse),
            14 => Ok(MicroTuning::Afx001),
            15 => Ok(MicroTuning::Afx002),
            16 => Ok(MicroTuning::Afx003),
            17 => Ok(MicroTuning::Afx004),
            18 => Ok(MicroTuning::Afx005),
            19 => Ok(MicroTuning::Afx006),
            20 => Ok(MicroTuning::UserScale1),
            21 => Ok(MicroTuning::UserScale2),
            22 => Ok(MicroTuning::UserScale3),
            23 => Ok(MicroTuning::UserScale4),
            24 => Ok(MicroTuning::UserScale5),
            25 => Ok(MicroTuning::UserScale6),
            26 => Ok(MicroTuning::UserOctave1),
            27 => Ok(MicroTuning::UserOctave2),
            28 => Ok(MicroTuning::UserOctave3),
            29 => Ok(MicroTuning::UserOctave4),
            30 => Ok(MicroTuning::UserOctave5),
            31 => Ok(MicroTuning::UserOctave6),
            32 => Ok(MicroTuning::Extended1),
            33 => Ok(MicroTuning::Extended2),
            34 => Ok(MicroTuning::Extended3),
            35 => Ok(MicroTuning::Extended4),
            36 => Ok(MicroTuning::Extended5),
            37 => Ok(MicroTuning::Extended6),
            38 => Ok(MicroTuning::Extended7),
            _ => Error::out_of_range_result("MicroTuning", v as i64, 0, 38),
        }
    }

    /// Convert a raw program value to its variant; values without a variant are
    /// reported as out of range (0--38).
    pub fn from_program_value(v: u8) -> (r: Result<Self, Error>)
        ensures
            r == Self::spec_from_program_value(v),
    {
        match v {
            0 => Ok(Self::EqualTemp),
            1 => Ok(Self::PureMajor),
            2 => Ok(Self::PureMinor),
            3 => Ok(Self::Pythagorean),
            4 => Ok(Self::Werckmeister),
            5 => Ok(Self::Kirnberger),
            6 => Ok(Self::Slendro),
            7 => Ok(Self::Pelog),
            8 => Ok(Self::Ionian),
            9 => Ok(Self::Dorian),
            10 => Ok(Self::Aeolian),
            11 => Ok(Self::MajorPenta),
            12 => Ok(Self::MinorPenta),
            13 => Ok(Self::Reverse),
            14 => Ok(Self::Afx001),
            15 => Ok(Self::Afx002),
            16 => Ok(Self::Afx003),
            17 => Ok(Self::Afx004),
            18 => Ok(Self::Afx005),
            19 => Ok(Self::Afx006),
            20 => Ok(Self::UserScale1),
            21 => Ok(Self::UserScale2),
            22 => Ok(Self::UserScale3),
            23 => Ok(Self::UserScale4),
            24 => Ok(Self::UserScale5),
            25 => Ok(Self::UserScale6),
            26 => Ok(Self::UserOctave1),
            27 => Ok(Self::UserOctave2),
            28 => Ok(Self::UserOctave3),
            29 => Ok(Self::UserOctave4),
            30 => Ok(Self::UserOctave5),
            31 => Ok(Self::UserOctave6),
            32 => Ok(Self::Extended1),
            33 => Ok(Self::Extended2),
            34 => Ok(Self::Extended3),
            35 => Ok(Self::Extended4),
            36 => Ok(Self::Extended5),
            37 => Ok(Self::Extended6),
            38 => Ok(Self::Extended7),
            _ => Err(Error::OutOfRange { name: "MicroTuning", value: v as i64, min: 0, max: 38 }),
        }
    }

    /// Convert this variant to its program value.
    pub fn to_program_value(self) -> (v: u8)
        ensures
            v == self.spec_program_value(),
            v < Self::COUNT,
    {
        match self {
            Self::EqualTemp => 0,
            Self::PureMajor => 1,
            Self::PureMinor => 2,
            Self::Pythagorean => 3,
            Self::Werckmeister => 4,
            Self::Kirnberger => 5,
            Self::Slendro => 6,
            Self::Pelog => 7,
            Self::Ionian => 8,
            Self::Dorian => 9,
            Self::Aeolian => 10,
            Self::MajorPenta => 11,
            Self::MinorPenta => 12,
            Self::Reverse => 13,
            Self::Afx001 => 14,
            Self::Afx002 => 15,
            Self::Afx003 => 16,
            Self::Afx004 => 17,
            Self::Afx005 => 18,
            Self::Afx006 => 19,
            Self::UserScale1 => 20,
            Self::UserScale2 => 21,
            Self::UserScale3 => 22,
            Self::UserScale4 => 23,
            Self::UserScale5 => 24,
            Self::UserScale6 => 25,
            Self::UserOctave1 => 26,
            Self::UserOctave2 => 27,
            Self::UserOctave3 => 28,
            Self::UserOctave4 => 29,
            Self::UserOctave5 => 30,
            Self::UserOctave6 => 31,
            Self::Extended1 => 32,
            Self::Extended2 => 33,
            Self::Extended3 => 34,
            Self::Extended4 => 35,
            Self::Extended5 => 36,
            Self::Extended6 => 37,
            Self::Extended7 => 38,
        }
    }

    /// Converting between variants and program values loses nothing: each variant
    /// comes back from its program value, and each accepted program value comes back
    /// from its variant.
    pub proof fn lemma_program_value_round_trip(self, v: u8)
        ensures
            Self::spec_from_program_value(self.spec_program_value()) == Ok::<Self, Error>(self),
            Self::spec_from_program_value(v) matches Ok(e) ==> e.spec_program_value() == v,
            Self::spec_from_program_value(v) is Ok <==> v < Self::COUNT,
    {
    }
}

/// Oscillators that the LFO modulates.
#[derive(Debug, Clone, Copy, PartialEq, Eq, Hash, Structural)]
#[non_exhaustive]
pub enum LfoTargetOsc {
    /// All oscillators.
    All,
    /// VCO 1 and VCO 2.
    Vco1Vco2,
    /// VCO 2 only.
    Vco2,
    /// The multi engine only.
    Multi,
}

impl LfoTargetOsc {
    /// The number of variants; their program values are `0..COUNT`.
    pub const COUNT: u8 = 4;

    /// The program value of each variant.
    pub open spec fn spec_program_value(self) -> u8 {
        match self {
            LfoTargetOsc::All => 0,
            LfoTargetOsc::Vco1Vco2 => 1,
            LfoTargetOsc::Vco2 => 2,
            LfoTargetOsc::Multi => 3,
        }
    }

    /// The variant with program value `v`, or the out-of-range error.
    pub open spec fn spec_from_program_value(v: u8) -> Result<LfoTargetOsc, Error> {
        match v {
            0 => Ok(LfoTargetOsc::All),
            1 => Ok(LfoTargetOsc::Vco1Vco2),
            2 => Ok(LfoTargetOsc::Vco2),
            3 => Ok(LfoTargetOsc::Multi),
            _ => Error::out_of_range_result("LfoTargetOsc", v as i64, 0, 3),
        }
    }

    /// Convert a raw program value to its variant; values without a variant are
    /// reported as out of range (0--3).
    pub fn from_program_value(v: u8) -> (r: Result<Self, Error>)
        ensures
            r == Self::spec_from_program_value(v),
    {
        match v {
            0 => Ok(Self::All),
            1 => Ok(Self::Vco1Vco2),
            2 => Ok(Self::Vco2),
            3 => Ok(Self::Multi),
            _ => Err(Error::OutOfRange { name: "LfoTargetOsc", value: v as i64, min: 0, max: 3 }),
        }
    }

    /// Convert this variant to its program value.
    pub fn to_program_value(self) -> (v: u8)
        ensures
            v == self.spec_program_value(),
            v < Self::COUNT,
    {
        match self {
            Self::All => 0,
            Self::Vco1Vco2 => 1,
            Self::Vco2 => 2,
            Self::Multi => 3,
        }
    }

    /// Converting between variants and program values loses nothing: each variant
    /// comes back from its program value, and each accepted program value comes back
    /// from its variant.
    pub proof fn lemma_program_value_round_trip(self, v: u8)
        ensures
            Self::spec_from_program_value(self.spec_program_value()) == Ok::<Self, Error>(self),
            Self::spec_from_program_value(v) matches Ok(e) ==> e.spec_program_value() == v,
            Self::spec_from_program_value(v) is Ok <==> v < Self::COUNT,
    {
    }
}

/// Routing of the multi engine.
#[derive(Debug, Clone, Copy, PartialEq, Eq, Hash, Structural)]
#[non_exhaustive]
pub enum MultiRouting {
    /// Before the filter.
    PreVcf,
    /// After the filter.
    PostVcf,
}

impl MultiRouting {
    /// The number of variants; their program values are `0..COUNT`.
    pub const COUNT: u8 = 2;

    /// The program value of each variant.
    pub open spec fn spec_program_value(self) -> u8 {
        match self {
            MultiRouting::PreVcf => 0,
            MultiRouting::PostVcf => 1,
        }
    }

    /// The variant with program value `v`, or the out-of-range error.
    pub open spec fn spec_from_program_value(v: u8) -> Result<MultiRouting, Error> {
        match v {
            0 => Ok(MultiRouting::PreVcf),
            1 => Ok(MultiRouting::PostVcf),
            _ => Error::out_of_range_result("MultiRouting", v as i64, 0, 1),
        }
    }

    /// Convert a raw program value to its variant; values without a variant are
    /// reported as out of range (0--1).
    pub fn from_program_value(v: u8) -> (r: Result<Self, Error>)
        ensures
            r == Self::spec_from_program_value(v),
    {
        match v {
            0 => Ok(Self::PreVcf),
            1 => Ok(Self::PostVcf),
            _ => Err(Error::OutOfRange { name: "MultiRouting", value: v as i64, min: 0, max: 1 }),
        }
    }

    /// Convert this variant to its program value.
    pub fn to_program_value(self) -> (v: u8)
        ensures
            v == self.spec_program_value(),
            v < Self::COUNT,
    {
        match self {
            Self::PreVcf => 0,
            Self::PostVcf => 1,
        }
    }

    /// Converting between variants and program values loses nothing: each variant
    /// comes back from its program value, and each accepted program value comes back
    /// from its variant.
    pub proof fn lemma_program_value_round_trip(self, v: u8)
        ensures
            Self::spec_from_program_value(self.spec_program_value()) == Ok::<Self, Error>(self),
            Self::spec_from_program_value(v) matches Ok(e) ==> e.spec_program_value() == v,
            Self::spec_from_program_value(v) is Ok <==> v < Self::COUNT,
    {
    }
}

/// Portamento mode.
#[derive(Debug, Clone, Copy, PartialEq, Eq, Hash, Structural)]
#[non_exhaustive]
pub enum PortamentoMode {
    /// Only between legato notes.
    Auto,
    /// Always.
    On,
}

impl PortamentoMode {
    /// The number of variants; their program values are `0..COUNT`.
    pub const COUNT: u8 = 2;

    /// The program value of each variant.
    pub open spec fn spec_program_value(self) -> u8 {
        match self {
            PortamentoMode::Auto => 0,
            PortamentoMode::On => 1,
        }
    }

    /// The variant with program value `v`, or the out-of-range error.
    pub open spec fn spec_from_program_value(v: u8) -> Result<PortamentoMode, Error> {
        match v {
            0 => Ok(PortamentoMode::Auto),
            1 => Ok(PortamentoMode::On),
            _ => Error::out_of_range_result("PortamentoMode", v as i64, 0, 1),
        }
    }

    /// Convert a raw program value to its variant; values without a variant are
    /// reported as out of range (0--1).
    pub fn from_program_value(v: u8) -> (r: Result<Self, Error>)
        ensures
            r == Self::spec_from_program_value(v),
    {
        match v {
            0 => Ok(Self::Auto),
            1 => Ok(Self::On),
            _ => Err(Error::OutOfRange { name: "PortamentoMode", value: v as i64, min: 0, max: 1 }),
        }
    }

    /// Convert this variant to its program value.
    pub fn to_program_value(self) -> (v: u8)
        ensures
            v == self.spec_program_value(),
            v < Self::COUNT,
    {
        match self {
            Self::Auto => 0,
            Self::On => 1,
        }
    }

    /// Converting between variants and program values loses nothing: each variant
    /// comes back from its program value, and each accepted program value comes back
    /// from its variant.
    pub proof fn lemma_program_value_round_trip(self, v: u8)
        ensures
            Self::spec_from_program_value(self.spec_program_value()) == Ok::<Self, Error>(self),
            Self::spec_from_program_value(v) matches Ok(e) ==> e.spec_program_value() == v,
            Self::spec_from_program_value(v) is Ok <==> v < Self::COUNT,
    {
    }
}

/// Display type of a user oscillator parameter.
#[derive(Debug, Clone, Copy, PartialEq, Eq, Hash, Structural)]
#[non_exhaustive]
pub enum UserParamType {
    /// Percentage.
    Percent,
    /// Bipolar percentage.
    Bipolar,
    /// Selection list.
    Select,
}

impl UserParamType {
    /// The number of variants; their program values are `0..COUNT`.
    pub const COUNT: u8 = 3;

    /// The program value of each variant.
    pub open spec fn spec_program_value(self) -> u8 {
        match self {
            UserParamType::Percent => 0,
            UserParamType::Bipolar => 1,
            UserParamType::Select => 2,
        }
    }

    /// The variant with program value `v`, or the out-of-range error.
    pub open spec fn spec_from_program_value(v: u8) -> Result<UserParamType, Error> {
        match v {
            0 => Ok(UserParamType::Percent),
            1 => Ok(UserParamType::Bipolar),
            2 => Ok(UserParamType::Select),
            _ => Error::out_of_range_result("UserParamType", v as i64, 0, 2),
        }
    }

    /// Convert a raw program value to its variant; values without a variant are
    /// reported as out of range (0--2).
    pub fn from_program_value(v: u8) -> (r: Result<Self, Error>)
        ensures
            r == Self::spec_from_program_value(v),
    {
        match v {
            0 => Ok(Self::Percent),
            1 => Ok(Self::Bipolar),
            2 => Ok(Self::Select),
            _ => Err(Error::OutOfRange { name: "UserParamType", value: v as i64, min: 0, max: 2 }),
        }
    }

    /// Convert this variant to its program value.
    pub fn to_program_value(self) -> (v: u8)
        ensures
            v == self.spec_program_value(),
            v < Self::COUNT,
    {
        match self {
            Self::Percent => 0,
            Self::Bipolar => 1,
            Self::Select => 2,
        }
    }

    /// Converting between variants and program values loses nothing: each variant
    /// comes back from its program value, and each accepted program value comes back
    /// from its variant.
    pub proof fn lemma_program_value_round_trip(self, v: u8)
        ensures
            Self::spec_from_program_value(self.spec_program_value()) == Ok::<Self, Error>(self),
            Self::spec_from_program_value(v) matches Ok(e) ==> e.spec_program_value() == v,
            Self::spec_from_program_value(v) is Ok <==> v < Self::COUNT,
    {
    }
}

/// Voice mode.
#[derive(Debug, Clone, Copy, PartialEq, Eq, Hash, Structural)]
#[non_exhaustive]
pub enum VoiceModeType {
    /// Polyphonic.
    Poly,
    /// Unison.
    Unison,
    /// Chord.
    Chord,
    /// Arpeggiator.
    Arp,
}

impl VoiceModeType {
    /// The number of variants; their program values are `0..COUNT`.
    pub const COUNT: u8 = 4;

    /// The program value of each variant.
    pub open spec fn spec_program_value(self) -> u8 {
        match self {
            VoiceModeType::Poly => 0,
            VoiceModeType::Unison => 1,
            VoiceModeType::Chord => 2,
            VoiceModeType::Arp => 3,
        }
    }

    /// The variant with program value `v`, or the out-of-range error.
    pub open spec fn spec_from_program_value(v: u8) -> Result<VoiceModeType, Error> {
        match v {
            0 => Ok(VoiceModeType::Poly),
            1 => Ok(VoiceModeType::Unison),
            2 => Ok(VoiceModeType::Chord),
            3 => Ok(VoiceModeType::Arp),
            _ => Error::out_of_range_result("VoiceModeType", v as i64, 0, 3),
        }
    }

    /// Convert a raw program value to its variant; values without a variant are
    /// reported as out of range (0--3).
    pub fn from_program_value(v: u8) -> (r: Result<Self, Error>)
        ensures
            r == Self::spec_from_program_value(v),
    {
        match v {
            0 => Ok(Self::Poly),
            1 => Ok(Self::Unison),
            2 => Ok(Self::Chord),
            3 => Ok(Self::Arp),
            _ => Err(Error::OutOfRange { name: "VoiceModeType", value: v as i64, min: 0, max: 3 }),
        }
    }

    /// Convert this variant to its program value.
    pub fn to_program_value(self) -> (v: u8)
        ensures
            v == self.spec_program_value(),
            v < Self::COUNT,
    {
        match self {
            Self::Poly => 0,
            Self::Unison => 1,
            Self::Chord => 2,
            Self::Arp => 3,
        }
    }

    /// Converting between variants and program values loses nothing: each variant
    /// comes back from its program value, and each accepted program value comes back
    /// from its variant.
    pub proof fn lemma_program_value_round_trip(self, v: u8)
        ensures
            Self::spec_from_program_value(self.spec_program_value()) == Ok::<Self, Error>(self),
            Self::spec_from_program_value(v) matches Ok(e) ==> e.spec_program_value() == v,
            Self::spec_from_program_value(v) is Ok <==> v < Self::COUNT,
    {
    }
}

/// Modulation effect type.
#[derive(Debug, Clone, Copy, PartialEq, Eq, Hash, Structural)]
#[non_exhaustive]
pub enum ModFxType {
    /// Chorus.
    Chorus,
    /// Ensemble.
    Ensemble,
    /// Phaser.
    Phaser,
    /// Flanger.
    Flanger,
    /// User modulation effect.
    User,
}

impl ModFxType {
    /// The number of variants; their program values are `0..COUNT`.
    pub const COUNT: u8 = 5;

    /// The program value of each variant.
    pub open spec fn spec_program_value(self) -> u8 {
        match self {
            ModFxType::Chorus => 0,
            ModFxType::Ensemble => 1,
            ModFxType::Phaser => 2,
            ModFxType::Flanger => 3,
            ModFxType::User => 4,
        }
    }

    /// The variant with program value `v`, or the out-of-range error.
    pub open spec fn spec_from_program_value(v: u8) -> Result<ModFxType, Error> {
        match v {
            0 => Ok(ModFxType::Chorus),
            1 => Ok(ModFxType::Ensemble),
            2 => Ok(ModFxType::Phaser),
            3 => Ok(ModFxType::Flanger),
            4 => Ok(ModFxType::User),
            _ => Error::out_of_range_result("ModFxType", v as i64, 0, 4),
        }
    }

    /// Convert a raw program value to its variant; values without a variant are
    /// reported as out of range (0--4).
    pub fn from_program_value(v: u8) -> (r: Result<Self, Error>)
        ensures
            r == Self::spec_from_program_value(v),
    {
        match v {
            0 => Ok(Self::Chorus),
            1 => Ok(Self::Ensemble),
            2 => Ok(Self::Phaser),
            3 => Ok(Self::Flanger),
            4 => Ok(Self::User),
            _ => Err(Error::OutOfRange { name: "ModFxType", value: v as i64, min: 0, max: 4 }),
        }
    }

    /// Convert this variant to its program value.
    pub fn to_program_value(self) -> (v: u8)
        ensures
            v == self.spec_program_value(),
            v < Self::COUNT,
    {
        match self {
            Self::Chorus => 0,
            Self::Ensemble => 1,
            Self::Phaser => 2,
            Self::Flanger => 3,
            Self::User => 4,
        }
    }

    /// Converting between variants and program values loses nothing: each variant
    /// comes back from its program value, and each accepted program value comes back
    /// from its variant.
    pub proof fn lemma_program_value_round_trip(self, v: u8)
        ensures
            Self::spec_from_program_value(self.spec_program_value()) == Ok::<Self, Error>(self),
            Self::spec_from_program_value(v) matches Ok(e) ==> e.spec_program_value() == v,
            Self::spec_from_program_value(v) is Ok <==> v < Self::COUNT,
    {
    }
}

/// The program value of each [`VcoWave`], as the MIDI implementation numbers them; no
/// other value names a variant.
pub proof fn lemma_vco_wave_values()
    ensures
        VcoWave::Sqr.spec_program_value() == 0,
        VcoWave::spec_from_program_value(0) == Ok::<VcoWave, Error>(VcoWave::Sqr),
        VcoWave::Tri.spec_program_value() == 1,
        VcoWave::spec_from_program_value(1) == Ok::<VcoWave, Error>(VcoWave::Tri),
        VcoWave::Saw.spec_program_value() == 2,
        VcoWave::spec_from_program_value(2) == Ok::<VcoWave, Error>(VcoWave::Saw),
        forall|v: u8| v >= 3 ==> VcoWave::spec_from_program_value(v) is Err,
{
}

/// The program value of each [`VcoOctave`], as the MIDI implementation numbers them; no
/// other value names a variant.
pub proof fn lemma_vco_octave_values()
    ensures
        VcoOctave::Sixteen.spec_program_value() == 0,
        VcoOctave::spec_from_program_value(0) == Ok::<VcoOctave, Error>(VcoOctave::Sixteen),
        VcoOctave::Eight.spec_program_value() == 1,
        VcoOctave::spec_from_program_value(1) == Ok::<VcoOctave, Error>(VcoOctave::Eight),
        VcoOctave::Four.spec_program_value() == 2,
        VcoOctave::spec_from_program_value(2) == Ok::<VcoOctave, Error>(VcoOctave::Four),
        VcoOctave::Two.spec_program_value() == 3,
        VcoOctave::spec_from_program_value(3) == Ok::<VcoOctave, Error>(VcoOctave::Two),
        forall|v: u8| v >= 4 ==> VcoOctave::spec_from_program_value(v) is Err,
{
}

/// The program value of each [`MultiType`], as the MIDI implementation numbers them; no
/// other value names a variant.
pub proof fn lemma_multi_type_values()
    ensures
        MultiType::Noise.spec_program_value() == 0,
        MultiType::spec_from_program_value(0) == Ok::<MultiType, Error>(MultiType::Noise),
        MultiType::Vpm.spec_program_value() == 1,
        MultiType::spec_from_program_value(1) == Ok::<MultiType, Error>(MultiType::Vpm),
        MultiType::User.spec_program_value() == 2,
        MultiType::spec_from_program_value(2) == Ok::<MultiType, Error>(MultiType::User),
        forall|v: u8| v >= 3 ==> MultiType::spec_from_program_value(v) is Err,
{
}

/// The program value of each [`MultiSelectNoise`], as the MIDI implementation numbers them; no
/// other value names a variant.
pub proof fn lemma_multi_select_noise_values()
    ensures
        MultiSelectNoise::High.spec_program_value() == 0,
        MultiSelectNoise::spec_from_program_value(0) == Ok::<MultiSelectNoise, Error>(MultiSelectNoise::High),
        MultiSelectNoise::Low.spec_program_value() == 1,
        MultiSelectNoise::spec_from_program_value(1) == Ok::<MultiSelectNoise, Error>(MultiSelectNoise::Low),
        MultiSelectNoise::Peak.spec_program_value() == 2,
        MultiSelectNoise::spec_from_program_value(2) == Ok::<MultiSelectNoise, Error>(MultiSelectNoise::Peak),
        MultiSelectNoise::Decim.spec_program_value() == 3,
        MultiSelectNoise::spec_from_program_value(3) == Ok::<MultiSelectNoise, Error>(MultiSelectNoise::Decim),
        forall|v: u8| v >= 4 ==> MultiSelectNoise::spec_from_program_value(v) is Err,
{
}

/// The program value of each [`MultiSelectVpm`], as the MIDI implementation numbers them; no
/// other value names a variant.
pub proof fn lemma_multi_select_vpm_values()
    ensures
        MultiSelectVpm::Sin1.spec_program_value() == 0,
        MultiSelectVpm::spec_from_program_value(0) == Ok::<MultiSelectVpm, Error>(MultiSelectVpm::Sin1),
        MultiSelectVpm::Sin2.spec_program_value() == 1,
        MultiSelectVpm::spec_from_program_value(1) == Ok::<MultiSelectVpm, Error>(MultiSelectVpm::Sin2),
        MultiSelectVpm::Sin3.spec_program_value() == 2,
        MultiSelectVpm::spec_from_program_value(2) == Ok::<MultiSelectVpm, Error>(MultiSelectVpm::Sin3),
        MultiSelectVpm::Sin4.spec_program_value() == 3,
        MultiSelectVpm::spec_from_program_value(3) == Ok::<MultiSelectVpm, Error>(MultiSelectVpm::Sin4),
        MultiSelectVpm::Saw1.spec_program_value() == 4,
        MultiSelectVpm::spec_from_program_value(4) == Ok::<MultiSelectVpm, Error>(MultiSelectVpm::Saw1),
        MultiSelectVpm::Saw2.spec_program_value() == 5,
        MultiSelectVpm::spec_from_program_value(5) == Ok::<MultiSelectVpm, Error>(MultiSelectVpm::Saw2),
        MultiSelectVpm::Squ1.spec_program_value() == 6,
        MultiSelectVpm::spec_from_program_value(6) == Ok::<MultiSelectVpm, Error>(MultiSelectVpm::Squ1),
        MultiSelectVpm::Squ2.spec_program_value() == 7,
        MultiSelectVpm::spec_from_program_value(7) == Ok::<MultiSelectVpm, Error>(MultiSelectVpm::Squ2),
        MultiSelectVpm::Fat1.spec_program_value() == 8,
        MultiSelectVpm::spec_from_program_value(8) == Ok::<MultiSelectVpm, Error>(MultiSelectVpm::Fat1),
        MultiSelectVpm::Fat2.spec_program_value() == 9,
        MultiSelectVpm::spec_from_program_value(9) == Ok::<MultiSelectVpm, Error>(MultiSelectVpm::Fat2),
        MultiSelectVpm::Air1.spec_program_value() == 10,
        MultiSelectVpm::spec_from_program_value(10) == Ok::<MultiSelectVpm, Error>(MultiSelectVpm::Air1),
        MultiSelectVpm::Air2.spec_program_value() == 11,
        MultiSelectVpm::spec_from_program_value(11) == Ok::<MultiSelectVpm, Error>(MultiSelectVpm::Air2),
        MultiSelectVpm::Decay1.spec_program_value() == 12,
        MultiSelectVpm::spec_from_program_value(12) == Ok::<MultiSelectVpm, Error>(MultiSelectVpm::Decay1),
        MultiSelectVpm::Decay2.spec_program_value() == 13,
        MultiSelectVpm::spec_from_program_value(13) == Ok::<MultiSelectVpm, Error>(MultiSelectVpm::Decay2),
        MultiSelectVpm::Creep.spec_program_value() == 14,
        MultiSelectVpm::spec_from_program_value(14) == Ok::<MultiSelectVpm, Error>(MultiSelectVpm::Creep),
        MultiSelectVpm::Throat.spec_program_value() == 15,
        MultiSelectVpm::spec_from_program_value(15) == Ok::<MultiSelectVpm, Error>(MultiSelectVpm::Throat),
        forall|v: u8| v >= 16 ==> MultiSelectVpm::spec_from_program_value(v) is Err,
{
}

/// The program value of each [`MultiSelectUser`], as the MIDI implementation numbers them; no
/// other value names a variant.
pub proof fn lemma_multi_select_user_values()
    ensures
        MultiSelectUser::User1.spec_program_value() == 0,
        MultiSelectUser::spec_from_program_value(0) == Ok::<MultiSelectUser, Error>(MultiSelectUser::User1),
        MultiSelectUser::User2.spec_program_value() == 1,
        MultiSelectUser::spec_from_program_value(1) == Ok::<MultiSelectUser, Error>(MultiSelectUser::User2),
        MultiSelectUser::User3.spec_program_value() == 2,
        MultiSelectUser::spec_from_program_value(2) == Ok::<MultiSelectUser, Error>(MultiSelectUser::User3),
        MultiSelectUser::User4.spec_program_value() == 3,
        MultiSelectUser::spec_from_program_value(3) == Ok::<MultiSelectUser, Error>(MultiSelectUser::User4),
        MultiSelectUser::User5.spec_program_value() == 4,
        MultiSelectUser::spec_from_program_value(4) == Ok::<MultiSelectUser, Error>(MultiSelectUser::User5),
        MultiSelectUser::User6.spec_program_value() == 5,
        MultiSelectUser::spec_from_program_value(5) == Ok::<MultiSelectUser, Error>(MultiSelectUser::User6),
        MultiSelectUser::User7.spec_program_value() == 6,
        MultiSelectUser::spec_from_program_value(6) == Ok::<MultiSelectUser, Error>(MultiSelectUser::User7),
        MultiSelectUser::User8.spec_program_value() == 7,
        MultiSelectUser::spec_from_program_value(7) == Ok::<MultiSelectUser, Error>(MultiSelectUser::User8),
        MultiSelectUser::User9.spec_program_value() == 8,
        MultiSelectUser::spec_from_program_value(8) == Ok::<MultiSelectUser, Error>(MultiSelectUser::User9),
        MultiSelectUser::User10.spec_program_value() == 9,
        MultiSelectUser::spec_from_program_value(9) == Ok::<MultiSelectUser, Error>(MultiSelectUser::User10),
        MultiSelectUser::User11.spec_program_value() == 10,
        MultiSelectUser::spec_from_program_value(10) == Ok::<MultiSelectUser, Error>(MultiSelectUser::User11),
        MultiSelectUser::User12.spec_program_value() == 11,
        MultiSelectUser::spec_from_program_value(11) == Ok::<MultiSelectUser, Error>(MultiSelectUser::User12),
        MultiSelectUser::User13.spec_program_value() == 12,
        MultiSelectUser::spec_from_program_value(12) == Ok::<MultiSelectUser, Error>(MultiSelectUser::User13),
        MultiSelectUser::User14.spec_program_value() == 13,
        MultiSelectUser::spec_from_program_value(13) == Ok::<MultiSelectUser, Error>(MultiSelectUser::User14),
        MultiSelectUser::User15.spec_program_value() == 14,
        MultiSelectUser::spec_from_program_value(14) == Ok::<MultiSelectUser, Error>(MultiSelectUser::User15),
        MultiSelectUser::User16.spec_program_value() == 15,
        MultiSelectUser::spec_from_program_value(15) == Ok::<MultiSelectUser, Error>(MultiSelectUser::User16),
        forall|v: u8| v >= 16 ==> MultiSelectUser::spec_from_program_value(v) is Err,
{
}

/// The program value of each [`CutoffDrive`], as the MIDI implementation numbers them; no
/// other value names a variant.
pub proof fn lemma_cutoff_drive_values()
    ensures
        CutoffDrive::Off.spec_program_value() == 0,
        CutoffDrive::spec_from_program_value(0) == Ok::<CutoffDrive, Error>(CutoffDrive::Off),
        CutoffDrive::Half.spec_program_value() == 1,
        CutoffDrive::spec_from_program_value(1) == Ok::<CutoffDrive, Error>(CutoffDrive::Half),
        CutoffDrive::Full.spec_program_value() == 2,
        CutoffDrive::spec_from_program_value(2) == Ok::<CutoffDrive, Error>(CutoffDrive::Full),
        forall|v: u8| v >= 3 ==> CutoffDrive::spec_from_program_value(v) is Err,
{
}

/// The program value of each [`CutoffKeytrack`], as the MIDI implementation numbers them; no
/// other value names a variant.
pub proof fn lemma_cutoff_keytrack_values()
    ensures
        CutoffKeytrack::Off.spec_program_value() == 0,
        CutoffKeytrack::spec_from_program_value(0) == Ok::<CutoffKeytrack, Error>(CutoffKeytrack::Off),
        CutoffKeytrack::Half.spec_program_value() == 1,
        CutoffKeytrack::spec_from_program_value(1) == Ok::<CutoffKeytrack, Error>(CutoffKeytrack::Half),
        CutoffKeytrack::Full.spec_program_value() == 2,
        CutoffKeytrack::spec_from_program_value(2) == Ok::<CutoffKeytrack, Error>(CutoffKeytrack::Full),
        forall|v: u8| v >= 3 ==> CutoffKeytrack::spec_from_program_value(v) is Err,
{
}

/// The program value of each [`EgTarget`], as the MIDI implementation numbers them; no
/// other value names a variant.
pub proof fn lemma_eg_target_values()
    ensures
        EgTarget::Cutoff.spec_program_value() == 0,
        EgTarget::spec_from_program_value(0) == Ok::<EgTarget, Error>(EgTarget::Cutoff),
        EgTarget::Pitch2.spec_program_value() == 1,
        EgTarget::spec_from_program_value(1) == Ok::<EgTarget, Error>(EgTarget::Pitch2),
        EgTarget::Pitch.spec_program_value() == 2,
        EgTarget::spec_from_program_value(2) == Ok::<EgTarget, Error>(EgTarget::Pitch),
        forall|v: u8| v >= 3 ==> EgTarget::spec_from_program_value(v) is Err,
{
}

/// The program value of each [`LfoWave`], as the MIDI implementation numbers them; no
/// other value names a variant.
pub proof fn lemma_lfo_wave_values()
    ensures
        LfoWave::Sqr.spec_program_value() == 0,
        LfoWave::spec_from_program_value(0) == Ok::<LfoWave, Error>(LfoWave::Sqr),
        LfoWave::Tri.spec_program_value() == 1,
        LfoWave::spec_from_program_value(1) == Ok::<LfoWave, Error>(LfoWave::Tri),
        LfoWave::Saw.spec_program_value() == 2,
        LfoWave::spec_from_program_value(2) == Ok::<LfoWave, Error>(LfoWave::Saw),
        forall|v: u8| v >= 3 ==> LfoWave::spec_from_program_value(v) is Err,
{
}

/// The program value of each [`LfoMode`], as the MIDI implementation numbers them; no
/// other value names a variant.
pub proof fn lemma_lfo_mode_values()
    ensures
        LfoMode::OneShot.spec_program_value() == 0,
        LfoMode::spec_from_program_value(0) == Ok::<LfoMode, Error>(LfoMode::OneShot),
        LfoMode::Normal.spec_program_value() == 1,
        LfoMode::spec_from_program_value(1) == Ok::<LfoMode, Error>(LfoMode::Normal),
        LfoMode::Bpm.spec_program_value() == 2,
        LfoMode::spec_from_program_value(2) == Ok::<LfoMode, Error>(LfoMode::Bpm),
        forall|v: u8| v >= 3 ==> LfoMode::spec_from_program_value(v) is Err,
{
}

/// The program value of each [`LfoTarget`], as the MIDI implementation numbers them; no
/// other value names a variant.
pub proof fn lemma_lfo_target_values()
    ensures
        LfoTarget::Cutoff.spec_program_value() == 0,
        LfoTarget::spec_from_program_value(0) == Ok::<LfoTarget, Error>(LfoTarget::Cutoff),
        LfoTarget::Shape.spec_program_value() == 1,
        LfoTarget::spec_from_program_value(1) == Ok::<LfoTarget, Error>(LfoTarget::Shape),
        LfoTarget::Pitch.spec_program_value() == 2,
        LfoTarget::spec_from_program_value(2) == Ok::<LfoTarget, Error>(LfoTarget::Pitch),
        forall|v: u8| v >= 3 ==> LfoTarget::spec_from_program_value(v) is Err,
{
}

/// The program value of each [`DelaySubType`], as the MIDI implementation numbers them; no
/// other value names a variant.
pub proof fn lemma_delay_sub_type_values()
    ensures
        DelaySubType::Stereo.spec_program_value() == 0,
        DelaySubType::spec_from_program_value(0) == Ok::<DelaySubType, Error>(DelaySubType::Stereo),
        DelaySubType::Mono.spec_program_value() == 1,
        DelaySubType::spec_from_program_value(1) == Ok::<DelaySubType, Error>(DelaySubType::Mono),
        DelaySubType::PingPong.spec_program_value() == 2,
        DelaySubType::spec_from_program_value(2) == Ok::<DelaySubType, Error>(DelaySubType::PingPong),
        DelaySubType::HiPass.spec_program_value() == 3,
        DelaySubType::spec_from_program_value(3) == Ok::<DelaySubType, Error>(DelaySubType::HiPass),
        DelaySubType::Tape.spec_program_value() == 4,
        DelaySubType::spec_from_program_value(4) == Ok::<DelaySubType, Error>(DelaySubType::Tape),
        DelaySubType::OneTap.spec_program_value() == 5,
        DelaySubType::spec_from_program_value(5) == Ok::<DelaySubType, Error>(DelaySubType::OneTap),
        DelaySubType::StereoBpm.spec_program_value() == 6,
        DelaySubType::spec_from_program_value(6) == Ok::<DelaySubType, Error>(DelaySubType::StereoBpm),
        DelaySubType::MonoBpm.spec_program_value() == 7,
        DelaySubType::spec_from_program_value(7) == Ok::<DelaySubType, Error>(DelaySubType::MonoBpm),
        DelaySubType::PingBpm.spec_program_value() == 8,
        DelaySubType::spec_from_program_value(8) == Ok::<DelaySubType, Error>(DelaySubType::PingBpm),
        DelaySubType::HiPassBpm.spec_program_value() == 9,
        DelaySubType::spec_from_program_value(9) == Ok::<DelaySubType, Error>(DelaySubType::HiPassBpm),
        DelaySubType::TapeBpm.spec_program_value() == 10,
        DelaySubType::spec_from_program_value(10) == Ok::<DelaySubType, Error>(DelaySubType::TapeBpm),
        DelaySubType::Doubling.spec_program_value() == 11,
        DelaySubType::spec_from_program_value(11) == Ok::<DelaySubType, Error>(DelaySubType::Doubling),
        DelaySubType::User1.spec_program_value() == 12,
        DelaySubType::spec_from_program_value(12) == Ok::<DelaySubType, Error>(DelaySubType::User1),
        DelaySubType::User2.spec_program_value() == 13,
        DelaySubType::spec_from_program_value(13) == Ok::<DelaySubType, Error>(DelaySubType::User2),
        DelaySubType::User3.spec_program_value() == 14,
        DelaySubType::spec_from_program_value(14) == Ok::<DelaySubType, Error>(DelaySubType::User3),
        DelaySubType::User4.spec_program_value() == 15,
        DelaySubType::spec_from_program_value(15) == Ok::<DelaySubType, Error>(DelaySubType::User4),
        DelaySubType::User5.spec_program_value() == 16,
        DelaySubType::spec_from_program_value(16) == Ok::<DelaySubType, Error>(DelaySubType::User5),
        DelaySubType::User6.spec_program_value() == 17,
        DelaySubType::spec_from_program_value(17) == Ok::<DelaySubType, Error>(DelaySubType::User6),
        DelaySubType::User7.spec_program_value() == 18,
        DelaySubType::spec_from_program_value(18) == Ok::<DelaySubType, Error>(DelaySubType::User7),
        DelaySubType::User8.spec_program_value() == 19,
        DelaySubType::spec_from_program_value(19) == Ok::<DelaySubType, Error>(DelaySubType::User8),
        forall|v: u8| v >= 20 ==> DelaySubType::spec_from_program_value(v) is Err,
{
}

/// The program value of each [`ReverbSubType`], as the MIDI implementation numbers them; no
/// other value names a variant.
pub proof fn lemma_reverb_sub_type_values()
    ensures
        ReverbSubType::Hall.spec_program_value() == 0,
        ReverbSubType::spec_from_program_value(0) == Ok::<ReverbSubType, Error>(ReverbSubType::Hall),
        ReverbSubType::Smooth.spec_program_value() == 1,
        ReverbSubType::spec_from_program_value(1) == Ok::<ReverbSubType, Error>(ReverbSubType::Smooth),
        ReverbSubType::Arena.spec_program_value() == 2,
        ReverbSubType::spec_from_program_value(2) == Ok::<ReverbSubType, Error>(ReverbSubType::Arena),
        ReverbSubType::Plate.spec_program_value() == 3,
        ReverbSubType::spec_from_program_value(3) == Ok::<ReverbSubType, Error>(ReverbSubType::Plate),
        ReverbSubType::Room.spec_program_value() == 4,
        ReverbSubType::spec_from_program_value(4) == Ok::<ReverbSubType, Error>(ReverbSubType::Room),
        ReverbSubType::EarlyRef.spec_program_value() == 5,
        ReverbSubType::spec_from_program_value(5) == Ok::<ReverbSubType, Error>(ReverbSubType::EarlyRef),
        ReverbSubType::Space.spec_program_value() == 6,
        ReverbSubType::spec_from_program_value(6) == Ok::<ReverbSubType, Error>(ReverbSubType::Space),
        ReverbSubType::Riser.spec_program_value() == 7,
        ReverbSubType::spec_from_program_value(7) == Ok::<ReverbSubType, Error>(ReverbSubType::Riser),
        ReverbSubType::Submarine.spec_program_value() == 8,
        ReverbSubType::spec_from_program_value(8) == Ok::<ReverbSubType, Error>(ReverbSubType::Submarine),
        ReverbSubType::Horror.spec_program_value() == 9,
        ReverbSubType::spec_from_program_value(9) == Ok::<ReverbSubType, Error>(ReverbSubType::Horror),
        ReverbSubType::User1.spec_program_value() == 10,
        ReverbSubType::spec_from_program_value(10) == Ok::<ReverbSubType, Error>(ReverbSubType::User1),
        ReverbSubType::User2.spec_program_value() == 11,
        ReverbSubType::spec_from_program_value(11) == Ok::<ReverbSubType, Error>(ReverbSubType::User2),
        ReverbSubType::User3.spec_program_value() == 12,
        ReverbSubType::spec_from_program_value(12) == Ok::<ReverbSubType, Error>(ReverbSubType::User3),
        ReverbSubType::User4.spec_program_value() == 13,
        ReverbSubType::spec_from_program_value(13) == Ok::<ReverbSubType, Error>(ReverbSubType::User4),
        ReverbSubType::User5.spec_program_value() == 14,
        ReverbSubType::spec_from_program_value(14) == Ok::<ReverbSubType, Error>(ReverbSubType::User5),
        ReverbSubType::User6.spec_program_value() == 15,
        ReverbSubType::spec_from_program_value(15) == Ok::<ReverbSubType, Error>(ReverbSubType::User6),
        ReverbSubType::User7.spec_program_value() == 16,
        ReverbSubType::spec_from_program_value(16) == Ok::<ReverbSubType, Error>(ReverbSubType::User7),
        ReverbSubType::User8.spec_program_value() == 17,
        ReverbSubType::spec_from_program_value(17) == Ok::<ReverbSubType, Error>(ReverbSubType::User8),
        forall|v: u8| v >= 18 ==> ReverbSubType::spec_from_program_value(v) is Err,
{
}

/// The program value of each [`ModAssignTarget`], as the MIDI implementation numbers them; no
/// other value names a variant.
pub proof fn lemma_mod_assign_target_values()
    ensures
        ModAssignTarget::Unassigned.spec_program_value() == 0,
        ModAssignTarget::spec_from_program_value(0) == Ok::<ModAssignTarget, Error>(ModAssignTarget::Unassigned),
        ModAssignTarget::GateTime.spec_program_value() == 1,
        ModAssignTarget::spec_from_program_value(1) == Ok::<ModAssignTarget, Error>(ModAssignTarget::GateTime),
        ModAssignTarget::PitchBend.spec_program_value() == 2,
        ModAssignTarget::spec_from_program_value(2) == Ok::<ModAssignTarget, Error>(ModAssignTarget::PitchBend),
        ModAssignTarget::Portamento.spec_program_value() == 3,
        ModAssignTarget::spec_from_program_value(3) == Ok::<ModAssignTarget, Error>(ModAssignTarget::Portamento),
        ModAssignTarget::VoiceModeDepth.spec_program_value() == 4,
        ModAssignTarget::spec_from_program_value(4) == Ok::<ModAssignTarget, Error>(ModAssignTarget::VoiceModeDepth),
        ModAssignTarget::Vco1Pitch.spec_program_value() == 5,
        ModAssignTarget::spec_from_program_value(5) == Ok::<ModAssignTarget, Error>(ModAssignTarget::Vco1Pitch),
        ModAssignTarget::Vco1Shape.spec_program_value() == 6,
        ModAssignTarget::spec_from_program_value(6) == Ok::<ModAssignTarget, Error>(ModAssignTarget::Vco1Shape),
        ModAssignTarget::Vco2Pitch.spec_program_value() == 7,
        ModAssignTarget::spec_from_program_value(7) == Ok::<ModAssignTarget, Error>(ModAssignTarget::Vco2Pitch),
        ModAssignTarget::Vco2Shape.spec_program_value() == 8,
        ModAssignTarget::spec_from_program_value(8) == Ok::<ModAssignTarget, Error>(ModAssignTarget::Vco2Shape),
        ModAssignTarget::CrossModDepth.spec_program_value() == 9,
        ModAssignTarget::spec_from_program_value(9) == Ok::<ModAssignTarget, Error>(ModAssignTarget::CrossModDepth),
        ModAssignTarget::MultiShape.spec_program_value() == 10,
        ModAssignTarget::spec_from_program_value(10) == Ok::<ModAssignTarget, Error>(ModAssignTarget::MultiShape),
        ModAssignTarget::MultiShiftShape.spec_program_value() == 11,
        ModAssignTarget::spec_from_program_value(11) == Ok::<ModAssignTarget, Error>(ModAssignTarget::MultiShiftShape),
        ModAssignTarget::Vco1Level.spec_program_value() == 12,
        ModAssignTarget::spec_from_program_value(12) == Ok::<ModAssignTarget, Error>(ModAssignTarget::Vco1Level),
        ModAssignTarget::Vco2Level.spec_program_value() == 13,
        ModAssignTarget::spec_from_program_value(13) == Ok::<ModAssignTarget, Error>(ModAssignTarget::Vco2Level),
        ModAssignTarget::MultiLevel.spec_program_value() == 14,
        ModAssignTarget::spec_from_program_value(14) == Ok::<ModAssignTarget, Error>(ModAssignTarget::MultiLevel),
        ModAssignTarget::EgInt.spec_program_value() == 15,
        ModAssignTarget::spec_from_program_value(15) == Ok::<ModAssignTarget, Error>(ModAssignTarget::EgInt),
        ModAssignTarget::Cutoff.spec_program_value() == 16,
        ModAssignTarget::spec_from_program_value(16) == Ok::<ModAssignTarget, Error>(ModAssignTarget::Cutoff),
        ModAssignTarget::Resonance.spec_program_value() == 17,
        ModAssignTarget::spec_from_program_value(17) == Ok::<ModAssignTarget, Error>(ModAssignTarget::Resonance),
        ModAssignTarget::AmpEgAttack.spec_program_value() == 18,
        ModAssignTarget::spec_from_program_value(18) == Ok::<ModAssignTarget, Error>(ModAssignTarget::AmpEgAttack),
        ModAssignTarget::AmpEgDecay.spec_program_value() == 19,
        ModAssignTarget::spec_from_program_value(19) == Ok::<ModAssignTarget, Error>(ModAssignTarget::AmpEgDecay),
        ModAssignTarget::AmpEgSustain.spec_program_value() == 20,
        ModAssignTarget::spec_from_program_value(20) == Ok::<ModAssignTarget, Error>(ModAssignTarget::AmpEgSustain),
        ModAssignTarget::AmpEgRelease.spec_program_value() == 21,
        ModAssignTarget::spec_from_program_value(21) == Ok::<ModAssignTarget, Error>(ModAssignTarget::AmpEgRelease),
        ModAssignTarget::EgAttack.spec_program_value() == 22,
        ModAssignTarget::spec_from_program_value(22) == Ok::<ModAssignTarget, Error>(ModAssignTarget::EgAttack),
        ModAssignTarget::EgDecay.spec_program_value() == 23,
        ModAssignTarget::spec_from_program_value(23) == Ok::<ModAssignTarget, Error>(ModAssignTarget::EgDecay),
        ModAssignTarget::LfoRate.spec_program_value() == 24,
        ModAssignTarget::spec_from_program_value(24) == Ok::<ModAssignTarget, Error>(ModAssignTarget::LfoRate),
        ModAssignTarget::LfoInt.spec_program_value() == 25,
        ModAssignTarget::spec_from_program_value(25) == Ok::<ModAssignTarget, Error>(ModAssignTarget::LfoInt),
        ModAssignTarget::ModFxTime.spec_program_value() == 26,
        ModAssignTarget::spec_from_program_value(26) == Ok::<ModAssignTarget, Error>(ModAssignTarget::ModFxTime),
        ModAssignTarget::ModFxDepth.spec_program_value() == 27,
        ModAssignTarget::spec_from_program_value(27) == Ok::<ModAssignTarget, Error>(ModAssignTarget::ModFxDepth),
        ModAssignTarget::PortamentoTime.spec_program_value() == 28,
        ModAssignTarget::spec_from_program_value(28) == Ok::<ModAssignTarget, Error>(ModAssignTarget::PortamentoTime),
        forall|v: u8| v >= 29 ==> ModAssignTarget::spec_from_program_value(v) is Err,
{
}

/// The program value of each [`CvInMode`], as the MIDI implementation numbers them; no
/// other value names a variant.
pub proof fn lemma_cv_in_mode_values()
    ensures
        CvInMode::Modulation.spec_program_value() == 0,
        CvInMode::spec_from_program_value(0) == Ok::<CvInMode, Error>(CvInMode::Modulation),
        CvInMode::CvGatePlus.spec_program_value() == 1,
        CvInMode::spec_from_program_value(1) == Ok::<CvInMode, Error>(CvInMode::CvGatePlus),
        CvInMode::CvGateMinus.spec_program_value() == 2,
        CvInMode::spec_from_program_value(2) == Ok::<CvInMode, Error>(CvInMode::CvGateMinus),
        forall|v: u8| v >= 3 ==> CvInMode::spec_from_program_value(v) is Err,
{
}

/// The program value of each [`MicroTuning`], as the MIDI implementation numbers them; no
/// other value names a variant.
pub proof fn lemma_micro_tuning_values()
    ensures
        MicroTuning::EqualTemp.spec_program_value() == 0,
        MicroTuning::spec_from_program_value(0) == Ok::<MicroTuning, Error>(MicroTuning::EqualTemp),
        MicroTuning::PureMajor.spec_program_value() == 1,
        MicroTuning::spec_from_program_value(1) == Ok::<MicroTuning, Error>(MicroTuning::PureMajor),
        MicroTuning::PureMinor.spec_program_value() == 2,
        MicroTuning::spec_from_program_value(2) == Ok::<MicroTuning, Error>(MicroTuning::PureMinor),
        MicroTuning::Pythagorean.spec_program_value() == 3,
        MicroTuning::spec_from_program_value(3) == Ok::<MicroTuning, Error>(MicroTuning::Pythagorean),
        MicroTuning::Werckmeister.spec_program_value() == 4,
        MicroTuning::spec_from_program_value(4) == Ok::<MicroTuning, Error>(MicroTuning::Werckmeister),
        MicroTuning::Kirnberger.spec_program_value() == 5,
        MicroTuning::spec_from_program_value(5) == Ok::<MicroTuning, Error>(MicroTuning::Kirnberger),
        MicroTuning::Slendro.spec_program_value() == 6,
        MicroTuning::spec_from_program_value(6) == Ok::<MicroTuning, Error>(MicroTuning::Slendro),
        MicroTuning::Pelog.spec_program_value() == 7,
        MicroTuning::spec_from_program_value(7) == Ok::<MicroTuning, Error>(MicroTuning::Pelog),
        MicroTuning::Ionian.spec_program_value() == 8,
        MicroTuning::spec_from_program_value(8) == Ok::<MicroTuning, Error>(MicroTuning::Ionian),
        MicroTuning::Dorian.spec_program_value() == 9,
        MicroTuning::spec_from_program_value(9) == Ok::<MicroTuning, Error>(MicroTuning::Dorian),
        MicroTuning::Aeolian.spec_program_value() == 10,
        MicroTuning::spec_from_program_value(10) == Ok::<MicroTuning, Error>(MicroTuning::Aeolian),
        MicroTuning::MajorPenta.spec_program_value() == 11,
        MicroTuning::spec_from_program_value(11) == Ok::<MicroTuning, Error>(MicroTuning::MajorPenta),
        MicroTuning::MinorPenta.spec_program_value() == 12,
        MicroTuning::spec_from_program_value(12) == Ok::<MicroTuning, Error>(MicroTuning::MinorPenta),
        MicroTuning::Reverse.spec_program_value() == 13,
        MicroTuning::spec_from_program_value(13) == Ok::<MicroTuning, Error>(MicroTuning::Reverse),
        MicroTuning::Afx001.spec_program_value() == 14,
        MicroTuning::spec_from_program_value(14) == Ok::<MicroTuning, Error>(MicroTuning::Afx001),
        MicroTuning::Afx002.spec_program_value() == 15,
        MicroTuning::spec_from_program_value(15) == Ok::<MicroTuning, Error>(MicroTuning::Afx002),
        MicroTuning::Afx003.spec_program_value() == 16,
        MicroTuning::spec_from_program_value(16) == Ok::<MicroTuning, Error>(MicroTuning::Afx003),
        MicroTuning::Afx004.spec_program_value() == 17,
        MicroTuning::spec_from_program_value(17) == Ok::<MicroTuning, Error>(MicroTuning::Afx004),
        MicroTuning::Afx005.spec_program_value() == 18,
        MicroTuning::spec_from_program_value(18) == Ok::<MicroTuning, Error>(MicroTuning::Afx005),
        MicroTuning::Afx006.spec_program_value() == 19,
        MicroTuning::spec_from_program_value(19) == Ok::<MicroTuning, Error>(MicroTuning::Afx006),
        MicroTuning::UserScale1.spec_program_value() == 20,
        MicroTuning::spec_from_program_value(20) == Ok::<MicroTuning, Error>(MicroTuning::UserScale1),
        MicroTuning::UserScale2.spec_program_value() == 21,
        MicroTuning::spec_from_program_value(21) == Ok::<MicroTuning, Error>(MicroTuning::UserScale2),
        MicroTuning::UserScale3.spec_program_value() == 22,
        MicroTuning::spec_from_program_value(22) == Ok::<MicroTuning, Error>(MicroTuning::UserScale3),
        MicroTuning::UserScale4.spec_program_value() == 23,
        MicroTuning::spec_from_program_value(23) == Ok::<MicroTuning, Error>(MicroTuning::UserScale4),
        MicroTuning::UserScale5.spec_program_value() == 24,
        MicroTuning::spec_from_program_value(24) == Ok::<MicroTuning, Error>(MicroTuning::UserScale5),
        MicroTuning::UserScale6.spec_program_value() == 25,
        MicroTuning::spec_from_program_value(25) == Ok::<MicroTuning, Error>(MicroTuning::UserScale6),
        MicroTuning::UserOctave1.spec_program_value() == 26,
        MicroTuning::spec_from_program_value(26) == Ok::<MicroTuning, Error>(MicroTuning::UserOctave1),
        MicroTuning::UserOctave2.spec_program_value() == 27,
        MicroTuning::spec_from_program_value(27) == Ok::<MicroTuning, Error>(MicroTuning::UserOctave2),
        MicroTuning::UserOctave3.spec_program_value() == 28,
        MicroTuning::spec_from_program_value(28) == Ok::<MicroTuning, Error>(MicroTuning::UserOctave3),
        MicroTuning::UserOctave4.spec_program_value() == 29,
        MicroTuning::spec_from_program_value(29) == Ok::<MicroTuning, Error>(MicroTuning::UserOctave4),
        MicroTuning::UserOctave5.spec_program_value() == 30,
        MicroTuning::spec_from_program_value(30) == Ok::<MicroTuning, Error>(MicroTuning::UserOctave5),
        MicroTuning::UserOctave6.spec_program_value() == 31,
        MicroTuning::spec_from_program_value(31) == Ok::<MicroTuning, Error>(MicroTuning::UserOctave6),
        MicroTuning::Extended1.spec_program_value() == 32,
        MicroTuning::spec_from_program_value(32) == Ok::<MicroTuning, Error>(MicroTuning::Extended1),
        MicroTuning::Extended2.spec_program_value() == 33,
        MicroTuning::spec_from_program_value(33) == Ok::<MicroTuning, Error>(MicroTuning::Extended2),
        MicroTuning::Extended3.spec_program_value() == 34,
        MicroTuning::spec_from_program_value(34) == Ok::<MicroTuning, Error>(MicroTuning::Extended3),
        MicroTuning::Extended4.spec_program_value() == 35,
        MicroTuning::spec_from_program_value(35) == Ok::<MicroTuning, Error>(MicroTuning::Extended4),
        MicroTuning::Extended5.spec_program_value() == 36,
        MicroTuning::spec_from_program_value(36) == Ok::<MicroTuning, Error>(MicroTuning::Extended5),
        MicroTuning::Extended6.spec_program_value() == 37,
        MicroTuning::spec_from_program_value(37) == Ok::<MicroTuning, Error>(MicroTuning::Extended6),
        MicroTuning::Extended7.spec_program_value() == 38,
        MicroTuning::spec_from_program_value(38) == Ok::<MicroTuning, Error>(MicroTuning::Extended7),
        forall|v: u8| v >= 39 ==> MicroTuning::spec_from_program_value(v) is Err,
{
}

/// The program value of each [`LfoTargetOsc`], as the MIDI implementation numbers them; no
/// other value names a variant.
pub proof fn lemma_lfo_target_osc_values()
    ensures
        LfoTargetOsc::All.spec_program_value() == 0,
        LfoTargetOsc::spec_from_program_value(0) == Ok::<LfoTargetOsc, Error>(LfoTargetOsc::All),
        LfoTargetOsc::Vco1Vco2.spec_program_value() == 1,
        LfoTargetOsc::spec_from_program_value(1) == Ok::<LfoTargetOsc, Error>(LfoTargetOsc::Vco1Vco2),
        LfoTargetOsc::Vco2.spec_program_value() == 2,
        LfoTargetOsc::spec_from_program_value(2) == Ok::<LfoTargetOsc, Error>(LfoTargetOsc::Vco2),
        LfoTargetOsc::Multi.spec_program_value() == 3,
        LfoTargetOsc::spec_from_program_value(3) == Ok::<LfoTargetOsc, Error>(LfoTargetOsc::Multi),
        forall|v: u8| v >= 4 ==> LfoTargetOsc::spec_from_program_value(v) is Err,
{
}

/// The program value of each [`MultiRouting`], as the MIDI implementation numbers them; no
/// other value names a variant.
pub proof fn lemma_multi_routing_values()
    ensures
        MultiRouting::PreVcf.spec_program_value() == 0,
        MultiRouting::spec_from_program_value(0) == Ok::<MultiRouting, Error>(MultiRouting::PreVcf),
        MultiRouting::PostVcf.spec_program_value() == 1,
        MultiRouting::spec_from_program_value(1) == Ok::<MultiRouting, Error>(MultiRouting::PostVcf),
        forall|v: u8| v >= 2 ==> MultiRouting::spec_from_program_value(v) is Err,
{
}

/// The program value of each [`PortamentoMode`], as the MIDI implementation numbers them; no
/// other value names a variant.
pub proof fn lemma_portamento_mode_values()
    ensures
        PortamentoMode::Auto.spec_program_value() == 0,
        PortamentoMode::spec_from_program_value(0) == Ok::<PortamentoMode, Error>(PortamentoMode::Auto),
        PortamentoMode::On.spec_program_value() == 1,
        PortamentoMode::spec_from_program_value(1) == Ok::<PortamentoMode, Error>(PortamentoMode::On),
        forall|v: u8| v >= 2 ==> PortamentoMode::spec_from_program_value(v) is Err,
{
}

/// The program value of each [`UserParamType`], as the MIDI implementation numbers them; no
/// other value names a variant.
pub proof fn lemma_user_param_type_values()
    ensures
        UserParamType::Percent.spec_program_value() == 0,
        UserParamType::spec_from_program_value(0) == Ok::<UserParamType, Error>(UserParamType::Percent),
        UserParamType::Bipolar.spec_program_value() == 1,
        UserParamType::spec_from_program_value(1) == Ok::<UserParamType, Error>(UserParamType::Bipolar),
        UserParamType::Select.spec_program_value() == 2,
        UserParamType::spec_from_program_value(2) == Ok::<UserParamType, Error>(UserParamType::Select),
        forall|v: u8| v >= 3 ==> UserParamType::spec_from_program_value(v) is Err,
{
}

/// The program value of each [`VoiceModeType`], as the MIDI implementation numbers them; no
/// other value names a variant.
pub proof fn lemma_voice_mode_type_values()
    ensures
        VoiceModeType::Poly.spec_program_value() == 0,
        VoiceModeType::spec_from_program_value(0) == Ok::<VoiceModeType, Error>(VoiceModeType::Poly),
        VoiceModeType::Unison.spec_program_value() == 1,
        VoiceModeType::spec_from_program_value(1) == Ok::<VoiceModeType, Error>(VoiceModeType::Unison),
        VoiceModeType::Chord.spec_program_value() == 2,
        VoiceModeType::spec_from_program_value(2) == Ok::<VoiceModeType, Error>(VoiceModeType::Chord),
        VoiceModeType::Arp.spec_program_value() == 3,
        VoiceModeType::spec_from_program_value(3) == Ok::<VoiceModeType, Error>(VoiceModeType::Arp),
        forall|v: u8| v >= 4 ==> VoiceModeType::spec_from_program_value(v) is Err,
{
}

/// The program value of each [`ModFxType`], as the MIDI implementation numbers them; no
/// other value names a variant.
pub proof fn lemma_mod_fx_type_values()
    ensures
        ModFxType::Chorus.spec_program_value() == 0,
        ModFxType::spec_from_program_value(0) == Ok::<ModFxType, Error>(ModFxType::Chorus),
        ModFxType::Ensemble.spec_program_value() == 1,
        ModFxType::spec_from_program_value(1) == Ok::<ModFxType, Error>(ModFxType::Ensemble),
        ModFxType::Phaser.spec_program_value() == 2,
        ModFxType::spec_from_program_value(2) == Ok::<ModFxType, Error>(ModFxType::Phaser),
        ModFxType::Flanger.spec_program_value() == 3,
        ModFxType::spec_from_program_value(3) == Ok::<ModFxType, Error>(ModFxType::Flanger),
        ModFxType::User.spec_program_value() == 4,
        ModFxType::spec_from_program_value(4) == Ok::<ModFxType, Error>(ModFxType::User),
        forall|v: u8| v >= 5 ==> ModFxType::spec_from_program_value(v) is Err,
{
}

} // verus!
