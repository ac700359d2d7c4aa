//! Values that appear only inside the SysEx data blobs (global settings and
//! the sequencer section of a program), each mapped one to one to a byte.

use vstd::prelude::*;

use crate::error::Error;

verus! {

/// Damper pedal polarity setting.
#[derive(Debug, Clone, Copy, PartialEq, Eq, Hash, Structural)]
#[non_exhaustive]
pub enum DamperPolarity {
    /// Normal polarity (closed = sustain on).
    Normal,
    /// Reversed polarity (open = sustain on).
    Reversed,
}

impl DamperPolarity {
    /// The number of variants; their bytes are `0..COUNT`.
    pub const COUNT: u8 = 2;

    /// The byte of each variant.
    pub open spec fn spec_byte(self) -> u8 {
        match self {
            DamperPolarity::Normal => 0,
            DamperPolarity::Reversed => 1,
        }
    }

    /// The variant with byte `v`, or the out-of-range error.
    pub open spec fn spec_from_byte(v: u8) -> Result<DamperPolarity, Error> {
        match v {
            0 => Ok(DamperPolarity::Normal),
            1 => Ok(DamperPolarity::Reversed),
            _ => Error::out_of_range_result("DamperPolarity", v as i64, 0, 1),
        }
    }

    /// Convert a raw byte to its variant; values without a variant are
    /// reported as out of range (0--1).
    pub fn from_byte(v: u8) -> (r: Result<Self, Error>)
        ensures
            r == Self::spec_from_byte(v),
    {
        match v {
            0 => Ok(Self::Normal),
            1 => Ok(Self::Reversed),
            _ => Err(Error::OutOfRange { name: "DamperPolarity", value: v as i64, min: 0, max: 1 }),
        }
    }

    /// Convert this variant to its byte.
    pub fn to_byte(self) -> (v: u8)
        ensures
            v == self.spec_byte(),
            v < Self::COUNT,
    {
        match self {
            Self::Normal => 0,
            Self::Reversed => 1,
        }
    }

    /// The display name of each variant.
    pub open spec fn spec_label(self) -> Seq<char> {
        match self {
            DamperPolarity::Normal => "-"@,
            DamperPolarity::Reversed => "+"@,
        }
    }

    /// The display name of this variant.
    pub fn to_string(&self) -> (s: String)
        ensures
            s@ == self.spec_label(),
    {
        let text = match self {
            Self::Normal => "-",
            Self::Reversed => "+",
        };
        String::from_str(text)
    }

    /// Converting between variants and bytes loses nothing: each variant
    /// comes back from its byte, and each accepted byte comes back
    /// from its variant.
    pub proof fn lemma_byte_round_trip(self, v: u8)
        ensures
            Self::spec_from_byte(self.spec_byte()) == Ok::<Self, Error>(self),
            Self::spec_from_byte(v) matches Ok(e) ==> e.spec_byte() == v,
            Self::spec_from_byte(v) is Ok <==> v < Self::COUNT,
    {
    }
}

/// Velocity curve selection.
#[derive(Debug, Clone, Copy, PartialEq, Eq, Hash, Structural)]
#[non_exhaustive]
pub enum VelocityCurve {
    /// Velocity curve type 1.
    Type1,
    /// Velocity curve type 2.
    Type2,
    /// Velocity curve type 3.
    Type3,
    /// Velocity curve type 4.
    Type4,
    /// Velocity curve type 5.
    Type5,
    /// Velocity curve type 6.
    Type6,
    /// Velocity curve type 7.
    Type7,
    /// Velocity curve type 8.
    Type8,
    /// Constant velocity 127.
    Const127,
}

impl VelocityCurve {
    /// The number of variants; their bytes are `0..COUNT`.
    pub const COUNT: u8 = 9;

    /// The byte of each variant.
    pub open spec fn spec_byte(self) -> u8 {
        match self {
            VelocityCurve::Type1 => 0,
            VelocityCurve::Type2 => 1,
            VelocityCurve::Type3 => 2,
            VelocityCurve::Type4 => 3,
            VelocityCurve::Type5 => 4,
            VelocityCurve::Type6 => 5,
            VelocityCurve::Type7 => 6,
            VelocityCurve::Type8 => 7,
            VelocityCurve::Const127 => 8,
        }
    }

    /// The variant with byte `v`, or the out-of-range error.
    pub open spec fn spec_from_byte(v: u8) -> Result<VelocityCurve, Error> {
        match v {
            0 => Ok(VelocityCurve::Type1),
            1 => Ok(VelocityCurve::Type2),
            2 => Ok(VelocityCurve::Type3),
            3 => Ok(VelocityCurve::Type4),
            4 => Ok(VelocityCurve::Type5),
            5 => Ok(VelocityCurve::Type6),
            6 => Ok(VelocityCurve::Type7),
            7 => Ok(VelocityCurve::Type8),
            8 => Ok(VelocityCurve::Const127),
            _ => Error::out_of_range_result("VelocityCurve", v as i64, 0, 8),
        }
    }

    /// Convert a raw byte to its variant; values without a variant are
    /// reported as out of range (0--8).
    pub fn from_byte(v: u8) -> (r: Result<Self, Error>)
        ensures
            r == Self::spec_from_byte(v),
    {
        match v {
            0 => Ok(Self::Type1),
            1 => Ok(Self::Type2),
            2 => Ok(Self::Type3),
            3 => Ok(Self::Type4),
            4 => Ok(Self::Type5),
            5 => Ok(Self::Type6),
            6 => Ok(Self::Type7),
            7 => Ok(Self::Type8),
            8 => Ok(Self::Const127),
            _ => Err(Error::OutOfRange { name: "VelocityCurve", value: v as i64, min: 0, max: 8 }),
        }
    }

    /// Convert this variant to its byte.
    pub fn to_byte(self) -> (v: u8)
        ensures
            v == self.spec_byte(),
            v < Self::COUNT,
    {
        match self {
            Self::Type1 => 0,
            Self::Type2 => 1,
            Self::Type3 => 2,
            Self::Type4 => 3,
            Self::Type5 => 4,
            Self::Type6 => 5,
            Self::Type7 => 6,
            Self::Type8 => 7,
            Self::Const127 => 8,
        }
    }

    /// The display name of each variant.
    pub open spec fn spec_label(self) -> Seq<char> {
        match self {
            VelocityCurve::Type1 => "Type1"@,
            VelocityCurve::Type2 => "Type2"@,
            VelocityCurve::Type3 => "Type3"@,
            VelocityCurve::Type4 => "Type4"@,
            VelocityCurve::Type5 => "Type5"@,
            VelocityCurve::Type6 => "Type6"@,
            VelocityCurve::Type7 => "Type7"@,
            VelocityCurve::Type8 => "Type8"@,
            VelocityCurve::Const127 => "Const127"@,
        }
    }

    /// The display name of this variant.
    pub fn to_string(&self) -> (s: String)
        ensures
            s@ == self.spec_label(),
    {
        let text = match self {
            Self::Type1 => "Type1",
            Self::Type2 => "Type2",
            Self::Type3 => "Type3",
            Self::Type4 => "Type4",
            Self::Type5 => "Type5",
            Self::Type6 => "Type6",
            Self::Type7 => "Type7",
            Self::Type8 => "Type8",
            Self::Const127 => "Const127",
        };
        String::from_str(text)
    }

    /// Converting between variants and bytes loses nothing: each variant
    /// comes back from its byte, and each accepted byte comes back
    /// from its variant.
    pub proof fn lemma_byte_round_trip(self, v: u8)
        ensures
            Self::spec_from_byte(self.spec_byte()) == Ok::<Self, Error>(self),
            Self::spec_from_byte(v) matches Ok(e) ==> e.spec_byte() == v,
            Self::spec_from_byte(v) is Ok <==> v < Self::COUNT,
    {
    }
}

/// Knob behavior mode.
#[derive(Debug, Clone, Copy, PartialEq, Eq, Hash, Structural)]
#[non_exhaustive]
pub enum KnobMode {
    /// The parameter jumps to the knob position.
    Jump,
    /// The parameter changes once the knob passes the stored value.
    Catch,
    /// The parameter scales from the stored value.
    Scale,
}

impl KnobMode {
    /// The number of variants; their bytes are `0..COUNT`.
    pub const COUNT: u8 = 3;

    /// The byte of each variant.
    pub open spec fn spec_byte(self) -> u8 {
        match self {
            KnobMode::Jump => 0,
            KnobMode::Catch => 1,
            KnobMode::Scale => 2,
        }
    }

    /// The variant with byte `v`, or the out-of-range error.
    pub open spec fn spec_from_byte(v: u8) -> Result<KnobMode, Error> {
        match v {
            0 => Ok(KnobMode::Jump),
            1 => Ok(KnobMode::Catch),
            2 => Ok(KnobMode::Scale),
            _ => Error::out_of_range_result("KnobMode", v as i64, 0, 2),
        }
    }

    /// Convert a raw byte to its variant; values without a variant are
    /// reported as out of range (0--2).
    pub fn from_byte(v: u8) -> (r: Result<Self, Error>)
        ensures
            r == Self::spec_from_byte(v),
    {
        match v {
            0 => Ok(Self::Jump),
            1 => Ok(Self::Catch),
            2 => Ok(Self::Scale),
            _ => Err(Error::OutOfRange { name: "KnobMode", value: v as i64, min: 0, max: 2 }),
        }
    }

    /// Convert this variant to its byte.
    pub fn to_byte(self) -> (v: u8)
        ensures
            v == self.spec_byte(),
            v < Self::COUNT,
    {
        match self {
            Self::Jump => 0,
            Self::Catch => 1,
            Self::Scale => 2,
        }
    }

    /// The display name of each variant.
    pub open spec fn spec_label(self) -> Seq<char> {
        match self {
            KnobMode::Jump => "Jump"@,
            KnobMode::Catch => "Catch"@,
            KnobMode::Scale => "Scale"@,
        }
    }

    /// The display name of this variant.
    pub fn to_string(&self) -> (s: String)
        ensures
            s@ == self.spec_label(),
    {
        let text = match self {
            Self::Jump => "Jump",
            Self::Catch => "Catch",
            Self::Scale => "Scale",
        };
        String::from_str(text)
    }

    /// Converting between variants and bytes loses nothing: each variant
    /// comes back from its byte, and each accepted byte comes back
    /// from its variant.
    pub proof fn lemma_byte_round_trip(self, v: u8)
        ensures
            Self::spec_from_byte(self.spec_byte()) == Ok::<Self, Error>(self),
            Self::spec_from_byte(v) matches Ok(e) ==> e.spec_byte() == v,
            Self::spec_from_byte(v) is Ok <==> v < Self::COUNT,
    {
    }
}

/// Sync clock unit (for both sync in and sync out).
#[derive(Debug, Clone, Copy, PartialEq, Eq, Hash, Structural)]
#[non_exhaustive]
pub enum SyncUnit {
    /// 1/16th note.
    Sixteenth,
    /// 1/8th note.
    Eighth,
}

impl SyncUnit {
    /// The number of variants; their bytes are `0..COUNT`.
    pub const COUNT: u8 = 2;

    /// The byte of each variant.
    pub open spec fn spec_byte(self) -> u8 {
        match self {
            SyncUnit::Sixteenth => 0,
            SyncUnit::Eighth => 1,
        }
    }

    /// The variant with byte `v`, or the out-of-range error.
    pub open spec fn spec_from_byte(v: u8) -> Result<SyncUnit, Error> {
        match v {
            0 => Ok(SyncUnit::Sixteenth),
            1 => Ok(SyncUnit::Eighth),
            _ => Error::out_of_range_result("SyncUnit", v as i64, 0, 1),
        }
    }

    /// Convert a raw byte to its variant; values without a variant are
    /// reported as out of range (0--1).
    pub fn from_byte(v: u8) -> (r: Result<Self, Error>)
        ensures
            r == Self::spec_from_byte(v),
    {
        match v {
            0 => Ok(Self::Sixteenth),
            1 => Ok(Self::Eighth),
            _ => Err(Error::OutOfRange { name: "SyncUnit", value: v as i64, min: 0, max: 1 }),
        }
    }

    /// Convert this variant to its byte.
    pub fn to_byte(self) -> (v: u8)
        ensures
            v == self.spec_byte(),
            v < Self::COUNT,
    {
        match self {
            Self::Sixteenth => 0,
            Self::Eighth => 1,
        }
    }

    /// The display name of each variant.
    pub open spec fn spec_label(self) -> Seq<char> {
        match self {
            SyncUnit::Sixteenth => "1/16"@,
            SyncUnit::Eighth => "1/8"@,
        }
    }

    /// The display name of this variant.
    pub fn to_string(&self) -> (s: String)
        ensures
            s@ == self.spec_label(),
    {
        let text = match self {
            Self::Sixteenth => "1/16",
            Self::Eighth => "1/8",
        };
        String::from_str(text)
    }

    /// Converting between variants and bytes loses nothing: each variant
    /// comes back from its byte, and each accepted byte comes back
    /// from its variant.
    pub proof fn lemma_byte_round_trip(self, v: u8)
        ensures
            Self::spec_from_byte(self.spec_byte()) == Ok::<Self, Error>(self),
            Self::spec_from_byte(v) matches Ok(e) ==> e.spec_byte() == v,
            Self::spec_from_byte(v) is Ok <==> v < Self::COUNT,
    {
    }
}

/// Sync clock polarity (for both sync in and sync out).
#[derive(Debug, Clone, Copy, PartialEq, Eq, Hash, Structural)]
#[non_exhaustive]
pub enum SyncPolarity {
    /// The rising edge clocks.
    Rise,
    /// The falling edge clocks.
    Fall,
}

impl SyncPolarity {
    /// The number of variants; their bytes are `0..COUNT`.
    pub const COUNT: u8 = 2;

    /// The byte of each variant.
    pub open spec fn spec_byte(self) -> u8 {
        match self {
            SyncPolarity::Rise => 0,
            SyncPolarity::Fall => 1,
        }
    }

    /// The variant with byte `v`, or the out-of-range error.
    pub open spec fn spec_from_byte(v: u8) -> Result<SyncPolarity, Error> {
        match v {
            0 => Ok(SyncPolarity::Rise),
            1 => Ok(SyncPolarity::Fall),
            _ => Error::out_of_range_result("SyncPolarity", v as i64, 0, 1),
        }
    }

    /// Convert a raw byte to its variant; values without a variant are
    /// reported as out of range (0--1).
    pub fn from_byte(v: u8) -> (r: Result<Self, Error>)
        ensures
            r == Self::spec_from_byte(v),
    {
        match v {
            0 => Ok(Self::Rise),
            1 => Ok(Self::Fall),
            _ => Err(Error::OutOfRange { name: "SyncPolarity", value: v as i64, min: 0, max: 1 }),
        }
    }

    /// Convert this variant to its byte.
    pub fn to_byte(self) -> (v: u8)
        ensures
            v == self.spec_byte(),
            v < Self::COUNT,
    {
        match self {
            Self::Rise => 0,
            Self::Fall => 1,
        }
    }

    /// The display name of each variant.
    pub open spec fn spec_label(self) -> Seq<char> {
        match self {
            SyncPolarity::Rise => "Rise"@,
            SyncPolarity::Fall => "Fall"@,
        }
    }

    /// The display name of this variant.
    pub fn to_string(&self) -> (s: String)
        ensures
            s@ == self.spec_label(),
    {
        let text = match self {
            Self::Rise => "Rise",
            Self::Fall => "Fall",
        };
        String::from_str(text)
    }

    /// Converting between variants and bytes loses nothing: each variant
    /// comes back from its byte, and each accepted byte comes back
    /// from its variant.
    pub proof fn lemma_byte_round_trip(self, v: u8)
        ensures
            Self::spec_from_byte(self.spec_byte()) == Ok::<Self, Error>(self),
            Self::spec_from_byte(v) matches Ok(e) ==> e.spec_byte() == v,
            Self::spec_from_byte(v) is Ok <==> v < Self::COUNT,
    {
    }
}

/// MIDI routing mode.
#[derive(Debug, Clone, Copy, PartialEq, Eq, Hash, Structural)]
#[non_exhaustive]
pub enum MidiRoute {
    /// USB and 5-pin DIN MIDI.
    UsbAndMidi,
    /// USB only.
    UsbOnly,
}

impl MidiRoute {
    /// The number of variants; their bytes are `0..COUNT`.
    pub const COUNT: u8 = 2;

    /// The byte of each variant.
    pub open spec fn spec_byte(self) -> u8 {
        match self {
            MidiRoute::UsbAndMidi => 0,
            MidiRoute::UsbOnly => 1,
        }
    }

    /// The variant with byte `v`, or the out-of-range error.
    pub open spec fn spec_from_byte(v: u8) -> Result<MidiRoute, Error> {
        match v {
            0 => Ok(MidiRoute::UsbAndMidi),
            1 => Ok(MidiRoute::UsbOnly),
            _ => Error::out_of_range_result("MidiRoute", v as i64, 0, 1),
        }
    }

    /// Convert a raw byte to its variant; values without a variant are
    /// reported as out of range (0--1).
    pub fn from_byte(v: u8) -> (r: Result<Self, Error>)
        ensures
            r == Self::spec_from_byte(v),
    {
        match v {
            0 => Ok(Self::UsbAndMidi),
            1 => Ok(Self::UsbOnly),
            _ => Err(Error::OutOfRange { name: "MidiRoute", value: v as i64, min: 0, max: 1 }),
        }
    }

    /// Convert this variant to its byte.
    pub fn to_byte(self) -> (v: u8)
        ensures
            v == self.spec_byte(),
            v < Self::COUNT,
    {
        match self {
            Self::UsbAndMidi => 0,
            Self::UsbOnly => 1,
        }
    }

    /// The display name of each variant.
    pub open spec fn spec_label(self) -> Seq<char> {
        match self {
            MidiRoute::UsbAndMidi => "USB+MIDI"@,
            MidiRoute::UsbOnly => "USB Only"@,
        }
    }

    /// The display name of this variant.
    pub fn to_string(&self) -> (s: String)
        ensures
            s@ == self.spec_label(),
    {
        let text = match self {
            Self::UsbAndMidi => "USB+MIDI",
            Self::UsbOnly => "USB Only",
        };
        String::from_str(text)
    }

    /// Converting between variants and bytes loses nothing: each variant
    /// comes back from its byte, and each accepted byte comes back
    /// from its variant.
    pub proof fn lemma_byte_round_trip(self, v: u8)
        ensures
            Self::spec_from_byte(self.spec_byte()) == Ok::<Self, Error>(self),
            Self::spec_from_byte(v) matches Ok(e) ==> e.spec_byte() == v,
            Self::spec_from_byte(v) is Ok <==> v < Self::COUNT,
    {
    }
}

/// Clock source selection.
#[derive(Debug, Clone, Copy, PartialEq, Eq, Hash, Structural)]
#[non_exhaustive]
pub enum ClockSource {
    /// Auto-detect the clock from USB.
    AutoUsb,
    /// Auto-detect the clock from MIDI.
    AutoMidi,
    /// Internal clock.
    Internal,
}

impl ClockSource {
    /// The number of variants; their bytes are `0..COUNT`.
    pub const COUNT: u8 = 3;

    /// The byte of each variant.
    pub open spec fn spec_byte(self) -> u8 {
        match self {
            ClockSource::AutoUsb => 0,
            ClockSource::AutoMidi => 1,
            ClockSource::Internal => 2,
        }
    }

    /// The variant with byte `v`, or the out-of-range error.
    pub open spec fn spec_from_byte(v: u8) -> Result<ClockSource, Error> {
        match v {
            0 => Ok(ClockSource::AutoUsb),
            1 => Ok(ClockSource::AutoMidi),
            2 => Ok(ClockSource::Internal),
            _ => Error::out_of_range_result("ClockSource", v as i64, 0, 2),
        }
    }

    /// Convert a raw byte to its variant; values without a variant are
    /// reported as out of range (0--2).
    pub fn from_byte(v: u8) -> (r: Result<Self, Error>)
        ensures
            r == Self::spec_from_byte(v),
    {
        match v {
            0 => Ok(Self::AutoUsb),
            1 => Ok(Self::AutoMidi),
            2 => Ok(Self::Internal),
            _ => Err(Error::OutOfRange { name: "ClockSource", value: v as i64, min: 0, max: 2 }),
        }
    }

    /// Convert this variant to its byte.
    pub fn to_byte(self) -> (v: u8)
        ensures
            v == self.spec_byte(),
            v < Self::COUNT,
    {
        match self {
            Self::AutoUsb => 0,
            Self::AutoMidi => 1,
            Self::Internal => 2,
        }
    }

    /// The display name of each variant.
    pub open spec fn spec_label(self) -> Seq<char> {
        match self {
            ClockSource::AutoUsb => "Auto (USB)"@,
            ClockSource::AutoMidi => "Auto (MIDI)"@,
            ClockSource::Internal => "Internal"@,
        }
    }

    /// The display name of this variant.
    pub fn to_string(&self) -> (s: String)
        ensures
            s@ == self.spec_label(),
    {
        let text = match self {
            Self::AutoUsb => "Auto (USB)",
            Self::AutoMidi => "Auto (MIDI)",
            Self::Internal => "Internal",
        };
        String::from_str(text)
    }

    /// Converting between variants and bytes loses nothing: each variant
    /// comes back from its byte, and each accepted byte comes back
    /// from its variant.
    pub proof fn lemma_byte_round_trip(self, v: u8)
        ensures
            Self::spec_from_byte(self.spec_byte()) == Ok::<Self, Error>(self),
            Self::spec_from_byte(v) matches Ok(e) ==> e.spec_byte() == v,
            Self::spec_from_byte(v) is Ok <==> v < Self::COUNT,
    {
    }
}

/// Parameter display mode.
#[derive(Debug, Clone, Copy, PartialEq, Eq, Hash, Structural)]
#[non_exhaustive]
pub enum ParameterDisp {
    /// Show changes of edited parameters only.
    Normal,
    /// Show all parameter values.
    All,
}

impl ParameterDisp {
    /// The number of variants; their bytes are `0..COUNT`.
    pub const COUNT: u8 = 2;

    /// The byte of each variant.
    pub open spec fn spec_byte(self) -> u8 {
        match self {
            ParameterDisp::Normal => 0,
            ParameterDisp::All => 1,
        }
    }

    /// The variant with byte `v`, or the out-of-range error.
    pub open spec fn spec_from_byte(v: u8) -> Result<ParameterDisp, Error> {
        match v {
            0 => Ok(ParameterDisp::Normal),
            1 => Ok(ParameterDisp::All),
            _ => Error::out_of_range_result("ParameterDisp", v as i64, 0, 1),
        }
    }

    /// Convert a raw byte to its variant; values without a variant are
    /// reported as out of range (0--1).
    pub fn from_byte(v: u8) -> (r: Result<Self, Error>)
        ensures
            r == Self::spec_from_byte(v),
    {
        match v {
            0 => Ok(Self::Normal),
            1 => Ok(Self::All),
            _ => Err(Error::OutOfRange { name: "ParameterDisp", value: v as i64, min: 0, max: 1 }),
        }
    }

    /// Convert this variant to its byte.
    pub fn to_byte(self) -> (v: u8)
        ensures
            v == self.spec_byte(),
            v < Self::COUNT,
    {
        match self {
            Self::Normal => 0,
            Self::All => 1,
        }
    }

    /// The display name of each variant.
    pub open spec fn spec_label(self) -> Seq<char> {
        match self {
            ParameterDisp::Normal => "Normal"@,
            ParameterDisp::All => "All"@,
        }
    }

    /// The display name of this variant.
    pub fn to_string(&self) -> (s: String)
        ensures
            s@ == self.spec_label(),
    {
        let text = match self {
            Self::Normal => "Normal",
            Self::All => "All",
        };
        String::from_str(text)
    }

    /// Converting between variants and bytes loses nothing: each variant
    /// comes back from its byte, and each accepted byte comes back
    /// from its variant.
    pub proof fn lemma_byte_round_trip(self, v: u8)
        ensures
            Self::spec_from_byte(self.spec_byte()) == Ok::<Self, Error>(self),
            Self::spec_from_byte(v) matches Ok(e) ==> e.spec_byte() == v,
            Self::spec_from_byte(v) is Ok <==> v < Self::COUNT,
    {
    }
}

/// Poly chain mode.
#[derive(Debug, Clone, Copy, PartialEq, Eq, Hash, Structural)]
#[non_exhaustive]
pub enum PolyChainMode {
    /// Poly chain disabled.
    Off,
    /// This unit is the poly chain master.
    Master,
    /// This unit is a poly chain slave.
    Slave,
}

impl PolyChainMode {
    /// The number of variants; their bytes are `0..COUNT`.
    pub const COUNT: u8 = 3;

    /// The byte of each variant.
    pub open spec fn spec_byte(self) -> u8 {
        match self {
            PolyChainMode::Off => 0,
            PolyChainMode::Master => 1,
            PolyChainMode::Slave => 2,
        }
    }

    /// The variant with byte `v`, or the out-of-range error.
    pub open spec fn spec_from_byte(v: u8) -> Result<PolyChainMode, Error> {
        match v {
            0 => Ok(PolyChainMode::Off),
            1 => Ok(PolyChainMode::Master),
            2 => Ok(PolyChainMode::Slave),
            _ => Error::out_of_range_result("PolyChainMode", v as i64, 0, 2),
        }
    }

    /// Convert a raw byte to its variant; values without a variant are
    /// reported as out of range (0--2).
    pub fn from_byte(v: u8) -> (r: Result<Self, Error>)
        ensures
            r == Self::spec_from_byte(v),
    {
        match v {
            0 => Ok(Self::Off),
            1 => Ok(Self::Master),
            2 => Ok(Self::Slave),
            _ => Err(Error::OutOfRange { name: "PolyChainMode", value: v as i64, min: 0, max: 2 }),
        }
    }

    /// Convert this variant to its byte.
    pub fn to_byte(self) -> (v: u8)
        ensures
            v == self.spec_byte(),
            v < Self::COUNT,
    {
        match self {
            Self::Off => 0,
            Self::Master => 1,
            Self::Slave => 2,
        }
    }

    /// The display name of each variant.
    pub open spec fn spec_label(self) -> Seq<char> {
        match self {
            PolyChainMode::Off => "Off"@,
            PolyChainMode::Master => "Master"@,
            PolyChainMode::Slave => "Slave"@,
        }
    }

    /// The display name of this variant.
    pub fn to_string(&self) -> (s: String)
        ensures
            s@ == self.spec_label(),
    {
        let text = match self {
            Self::Off => "Off",
            Self::Master => "Master",
            Self::Slave => "Slave",
        };
        String::from_str(text)
    }

    /// Converting between variants and bytes loses nothing: each variant
    /// comes back from its byte, and each accepted byte comes back
    /// from its variant.
    pub proof fn lemma_byte_round_trip(self, v: u8)
        ensures
            Self::spec_from_byte(self.spec_byte()) == Ok::<Self, Error>(self),
            Self::spec_from_byte(v) matches Ok(e) ==> e.spec_byte() == v,
            Self::spec_from_byte(v) is Ok <==> v < Self::COUNT,
    {
    }
}

/// Shift button function assignment.
#[derive(Debug, Clone, Copy, PartialEq, Eq, Hash, Structural)]
#[non_exhaustive]
pub enum ShiftFunction {
    /// Shift reaches the favorites.
    Favorite,
    /// Shift reaches active step editing.
    ActiveStep,
}

impl ShiftFunction {
    /// The number of variants; their bytes are `0..COUNT`.
    pub const COUNT: u8 = 2;

    /// The byte of each variant.
    pub open spec fn spec_byte(self) -> u8 {
        match self {
            ShiftFunction::Favorite => 0,
            ShiftFunction::ActiveStep => 1,
        }
    }

    /// The variant with byte `v`, or the out-of-range error.
    pub open spec fn spec_from_byte(v: u8) -> Result<ShiftFunction, Error> {
        match v {
            0 => Ok(ShiftFunction::Favorite),
            1 => Ok(ShiftFunction::ActiveStep),
            _ => Error::out_of_range_result("ShiftFunction", v as i64, 0, 1),
        }
    }

    /// Convert a raw byte to its variant; values without a variant are
    /// reported as out of range (0--1).
    pub fn from_byte(v: u8) -> (r: Result<Self, Error>)
        ensures
            r == Self::spec_from_byte(v),
    {
        match v {
            0 => Ok(Self::Favorite),
            1 => Ok(Self::ActiveStep),
            _ => Err(Error::OutOfRange { name: "ShiftFunction", value: v as i64, min: 0, max: 1 }),
        }
    }

    /// Convert this variant to its byte.
    pub fn to_byte(self) -> (v: u8)
        ensures
            v == self.spec_byte(),
            v < Self::COUNT,
    {
        match self {
            Self::Favorite => 0,
            Self::ActiveStep => 1,
        }
    }

    /// The display name of each variant.
    pub open spec fn spec_label(self) -> Seq<char> {
        match self {
            ShiftFunction::Favorite => "Favorite"@,
            ShiftFunction::ActiveStep => "Active Step"@,
        }
    }

    /// The display name of this variant.
    pub fn to_string(&self) -> (s: String)
        ensures
            s@ == self.spec_label(),
    {
        let text = match self {
            Self::Favorite => "Favorite",
            Self::ActiveStep => "Active Step",
        };
        String::from_str(text)
    }

    /// Converting between variants and bytes loses nothing: each variant
    /// comes back from its byte, and each accepted byte comes back
    /// from its variant.
    pub proof fn lemma_byte_round_trip(self, v: u8)
        ensures
            Self::spec_from_byte(self.spec_byte()) == Ok::<Self, Error>(self),
            Self::spec_from_byte(v) matches Ok(e) ==> e.spec_byte() == v,
            Self::spec_from_byte(v) is Ok <==> v < Self::COUNT,
    {
    }
}

/// Step sequencer resolution.
#[derive(Debug, Clone, Copy, PartialEq, Eq, Hash, Structural)]
#[non_exhaustive]
pub enum StepResolution {
    /// 1/16th note.
    Sixteenth,
    /// 1/8th note.
    Eighth,
    /// 1/4 note.
    Quarter,
    /// 1/2 note.
    Half,
    /// Whole note.
    Whole,
}

impl StepResolution {
    /// The number of variants; their bytes are `0..COUNT`.
    pub const COUNT: u8 = 5;

    /// The byte of each variant.
    pub open spec fn spec_byte(self) -> u8 {
        match self {
            StepResolution::Sixteenth => 0,
            StepResolution::Eighth => 1,
            StepResolution::Quarter => 2,
            StepResolution::Half => 3,
            StepResolution::Whole => 4,
        }
    }

    /// The variant with byte `v`, or the out-of-range error.
    pub open spec fn spec_from_byte(v: u8) -> Result<StepResolution, Error> {
        match v {
            0 => Ok(StepResolution::Sixteenth),
            1 => Ok(StepResolution::Eighth),
            2 => Ok(StepResolution::Quarter),
            3 => Ok(StepResolution::Half),
            4 => Ok(StepResolution::Whole),
            _ => Error::out_of_range_result("StepResolution", v as i64, 0, 4),
        }
    }

    /// Convert a raw byte to its variant; values without a variant are
    /// reported as out of range (0--4).
    pub fn from_byte(v: u8) -> (r: Result<Self, Error>)
        ensures
            r == Self::spec_from_byte(v),
    {
        match v {
            0 => Ok(Self::Sixteenth),
            1 => Ok(Self::Eighth),
            2 => Ok(Self::Quarter),
            3 => Ok(Self::Half),
            4 => Ok(Self::Whole),
            _ => Err(Error::OutOfRange { name: "StepResolution", value: v as i64, min: 0, max: 4 }),
        }
    }

    /// Convert this variant to its byte.
    pub fn to_byte(self) -> (v: u8)
        ensures
            v == self.spec_byte(),
            v < Self::COUNT,
    {
        match self {
            Self::Sixteenth => 0,
            Self::Eighth => 1,
            Self::Quarter => 2,
            Self::Half => 3,
            Self::Whole => 4,
        }
    }

    /// The display name of each variant.
    pub open spec fn spec_label(self) -> Seq<char> {
        match self {
            StepResolution::Sixteenth => "1/16"@,
            StepResolution::Eighth => "1/8"@,
            StepResolution::Quarter => "1/4"@,
            StepResolution::Half => "1/2"@,
            StepResolution::Whole => "1/1"@,
        }
    }

    /// The display name of this variant.
    pub fn to_string(&self) -> (s: String)
        ensures
            s@ == self.spec_label(),
    {
        let text = match self {
            Self::Sixteenth => "1/16",
            Self::Eighth => "1/8",
            Self::Quarter => "1/4",
            Self::Half => "1/2",
            Self::Whole => "1/1",
        };
        String::from_str(text)
    }

    /// Converting between variants and bytes loses nothing: each variant
    /// comes back from its byte, and each accepted byte comes back
    /// from its variant.
    pub proof fn lemma_byte_round_trip(self, v: u8)
        ensures
            Self::spec_from_byte(self.spec_byte()) == Ok::<Self, Error>(self),
            Self::spec_from_byte(v) matches Ok(e) ==> e.spec_byte() == v,
            Self::spec_from_byte(v) is Ok <==> v < Self::COUNT,
    {
    }
}

/// Arpeggiator rate division.
#[derive(Debug, Clone, Copy, PartialEq, Eq, Hash, Structural)]
#[non_exhaustive]
pub enum ArpRate {
    /// 1/1 (whole note).
    Full,
    /// 3/4 (dotted half).
    ThreeQuarter,
    /// 2/3 (triplet half).
    TwoThird,
    /// 1/2 (half note).
    Half,
    /// 3/8 (dotted quarter).
    ThreeEighth,
    /// 1/3 (triplet quarter).
    OneThird,
    /// 1/4 (quarter note).
    Quarter,
    /// 3/16 (dotted eighth).
    ThreeSixteenth,
    /// 1/6 (triplet eighth).
    OneSixth,
    /// 1/8 (eighth note).
    Eighth,
    /// 1/12 (triplet sixteenth).
    OneTwelfth,
}

impl ArpRate {
    /// The number of variants; their bytes are `0..COUNT`.
    pub const COUNT: u8 = 11;

    /// The byte of each variant.
    pub open spec fn spec_byte(self) -> u8 {
        match self {
            ArpRate::Full => 0,
            ArpRate::ThreeQuarter => 1,
            ArpRate::TwoThird => 2,
            ArpRate::Half => 3,
            ArpRate::ThreeEighth => 4,
            ArpRate::OneThird => 5,
            ArpRate::Quarter => 6,
            ArpRate::ThreeSixteenth => 7,
            ArpRate::OneSixth => 8,
            ArpRate::Eighth => 9,
            ArpRate::OneTwelfth => 10,
        }
    }

    /// The variant with byte `v`, or the out-of-range error.
    pub open spec fn spec_from_byte(v: u8) -> Result<ArpRate, Error> {
        match v {
            0 => Ok(ArpRate::Full),
            1 => Ok(ArpRate::ThreeQuarter),
            2 => Ok(ArpRate::TwoThird),
            3 => Ok(ArpRate::Half),
            4 => Ok(ArpRate::ThreeEighth),
            5 => Ok(ArpRate::OneThird),
            6 => Ok(ArpRate::Quarter),
            7 => Ok(ArpRate::ThreeSixteenth),
            8 => Ok(ArpRate::OneSixth),
            9 => Ok(ArpRate::Eighth),
            10 => Ok(ArpRate::OneTwelfth),
            _ => Error::out_of_range_result("ArpRate", v as i64, 0, 10),
        }
    }

    /// Convert a raw byte to its variant; values without a variant are
    /// reported as out of range (0--10).
    pub fn from_byte(v: u8) -> (r: Result<Self, Error>)
        ensures
            r == Self::spec_from_byte(v),
    {
        match v {
            0 => Ok(Self::Full),
            1 => Ok(Self::ThreeQuarter),
            2 => Ok(Self::TwoThird),
            3 => Ok(Self::Half),
            4 => Ok(Self::ThreeEighth),
            5 => Ok(Self::OneThird),
            6 => Ok(Self::Quarter),
            7 => Ok(Self::ThreeSixteenth),
            8 => Ok(Self::OneSixth),
            9 => Ok(Self::Eighth),
            10 => Ok(Self::OneTwelfth),
            _ => Err(Error::OutOfRange { name: "ArpRate", value: v as i64, min: 0, max: 10 }),
        }
    }

    /// Convert this variant to its byte.
    pub fn to_byte(self) -> (v: u8)
        ensures
            v == self.spec_byte(),
            v < Self::COUNT,
    {
        match self {
            Self::Full => 0,
            Self::ThreeQuarter => 1,
            Self::TwoThird => 2,
            Self::Half => 3,
            Self::ThreeEighth => 4,
            Self::OneThird => 5,
            Self::Quarter => 6,
            Self::ThreeSixteenth => 7,
            Self::OneSixth => 8,
            Self::Eighth => 9,
            Self::OneTwelfth => 10,
        }
    }

    /// The display name of each variant.
    pub open spec fn spec_label(self) -> Seq<char> {
        match self {
            ArpRate::Full => "1/1"@,
            ArpRate::ThreeQuarter => "3/4"@,
            ArpRate::TwoThird => "2/3"@,
            ArpRate::Half => "1/2"@,
            ArpRate::ThreeEighth => "3/8"@,
            ArpRate::OneThird => "1/3"@,
            ArpRate::Quarter => "1/4"@,
            ArpRate::ThreeSixteenth => "3/16"@,
            ArpRate::OneSixth => "1/6"@,
            ArpRate::Eighth => "1/8"@,
            ArpRate::OneTwelfth => "1/12"@,
        }
    }

    /// The display name of this variant.
    pub fn to_string(&self) -> (s: String)
        ensures
            s@ == self.spec_label(),
    {
        let text = match self {
            Self::Full => "1/1",
            Self::ThreeQuarter => "3/4",
            Self::TwoThird => "2/3",
            Self::Half => "1/2",
            Self::ThreeEighth => "3/8",
            Self::OneThird => "1/3",
            Self::Quarter => "1/4",
            Self::ThreeSixteenth => "3/16",
            Self::OneSixth => "1/6",
            Self::Eighth => "1/8",
            Self::OneTwelfth => "1/12",
        };
        String::from_str(text)
    }

    /// Converting between variants and bytes loses nothing: each variant
    /// comes back from its byte, and each accepted byte comes back
    /// from its variant.
    pub proof fn lemma_byte_round_trip(self, v: u8)
        ensures
            Self::spec_from_byte(self.spec_byte()) == Ok::<Self, Error>(self),
            Self::spec_from_byte(v) matches Ok(e) ==> e.spec_byte() == v,
            Self::spec_from_byte(v) is Ok <==> v < Self::COUNT,
    {
    }
}

/// The byte of each [`DamperPolarity`], as the MIDI implementation numbers them; no
/// other value names a variant.
pub proof fn lemma_damper_polarity_values()
    ensures
        DamperPolarity::Normal.spec_byte() == 0,
        DamperPolarity::spec_from_byte(0) == Ok::<DamperPolarity, Error>(DamperPolarity::Normal),
        DamperPolarity::Reversed.spec_byte() == 1,
        DamperPolarity::spec_from_byte(1) == Ok::<DamperPolarity, Error>(DamperPolarity::Reversed),
        forall|v: u8| v >= 2 ==> DamperPolarity::spec_from_byte(v) is Err,
{
}

/// The byte of each [`VelocityCurve`], as the MIDI implementation numbers them; no
/// other value names a variant.
pub proof fn lemma_velocity_curve_values()
    ensures
        VelocityCurve::Type1.spec_byte() == 0,
        VelocityCurve::spec_from_byte(0) == Ok::<VelocityCurve, Error>(VelocityCurve::Type1),
        VelocityCurve::Type2.spec_byte() == 1,
        VelocityCurve::spec_from_byte(1) == Ok::<VelocityCurve, Error>(VelocityCurve::Type2),
        VelocityCurve::Type3.spec_byte() == 2,
        VelocityCurve::spec_from_byte(2) == Ok::<VelocityCurve, Error>(VelocityCurve::Type3),
        VelocityCurve::Type4.spec_byte() == 3,
        VelocityCurve::spec_from_byte(3) == Ok::<VelocityCurve, Error>(VelocityCurve::Type4),
        VelocityCurve::Type5.spec_byte() == 4,
        VelocityCurve::spec_from_byte(4) == Ok::<VelocityCurve, Error>(VelocityCurve::Type5),
        VelocityCurve::Type6.spec_byte() == 5,
        VelocityCurve::spec_from_byte(5) == Ok::<VelocityCurve, Error>(VelocityCurve::Type6),
        VelocityCurve::Type7.spec_byte() == 6,
        VelocityCurve::spec_from_byte(6) == Ok::<VelocityCurve, Error>(VelocityCurve::Type7),
        VelocityCurve::Type8.spec_byte() == 7,
        VelocityCurve::spec_from_byte(7) == Ok::<VelocityCurve, Error>(VelocityCurve::Type8),
        VelocityCurve::Const127.spec_byte() == 8,
        VelocityCurve::spec_from_byte(8) == Ok::<VelocityCurve, Error>(VelocityCurve::Const127),
        forall|v: u8| v >= 9 ==> VelocityCurve::spec_from_byte(v) is Err,
{
}

/// The byte of each [`KnobMode`], as the MIDI implementation numbers them; no
/// other value names a variant.
pub proof fn lemma_knob_mode_values()
    ensures
        KnobMode::Jump.spec_byte() == 0,
        KnobMode::spec_from_byte(0) == Ok::<KnobMode, Error>(KnobMode::Jump),
        KnobMode::Catch.spec_byte() == 1,
        KnobMode::spec_from_byte(1) == Ok::<KnobMode, Error>(KnobMode::Catch),
        KnobMode::Scale.spec_byte() == 2,
        KnobMode::spec_from_byte(2) == Ok::<KnobMode, Error>(KnobMode::Scale),
        forall|v: u8| v >= 3 ==> KnobMode::spec_from_byte(v) is Err,
{
}

/// The byte of each [`SyncUnit`], as the MIDI implementation numbers them; no
/// other value names a variant.
pub proof fn lemma_sync_unit_values()
    ensures
        SyncUnit::Sixteenth.spec_byte() == 0,
        SyncUnit::spec_from_byte(0) == Ok::<SyncUnit, Error>(SyncUnit::Sixteenth),
        SyncUnit::Eighth.spec_byte() == 1,
        SyncUnit::spec_from_byte(1) == Ok::<SyncUnit, Error>(SyncUnit::Eighth),
        forall|v: u8| v >= 2 ==> SyncUnit::spec_from_byte(v) is Err,
{
}

/// The byte of each [`SyncPolarity`], as the MIDI implementation numbers them; no
/// other value names a variant.
pub proof fn lemma_sync_polarity_values()
    ensures
        SyncPolarity::Rise.spec_byte() == 0,
        SyncPolarity::spec_from_byte(0) == Ok::<SyncPolarity, Error>(SyncPolarity::Rise),
        SyncPolarity::Fall.spec_byte() == 1,
        SyncPolarity::spec_from_byte(1) == Ok::<SyncPolarity, Error>(SyncPolarity::Fall),
        forall|v: u8| v >= 2 ==> SyncPolarity::spec_from_byte(v) is Err,
{
}

/// The byte of each [`MidiRoute`], as the MIDI implementation numbers them; no
/// other value names a variant.
pub proof fn lemma_midi_route_values()
    ensures
        MidiRoute::UsbAndMidi.spec_byte() == 0,
        MidiRoute::spec_from_byte(0) == Ok::<MidiRoute, Error>(MidiRoute::UsbAndMidi),
        MidiRoute::UsbOnly.spec_byte() == 1,
        MidiRoute::spec_from_byte(1) == Ok::<MidiRoute, Error>(MidiRoute::UsbOnly),
        forall|v: u8| v >= 2 ==> MidiRoute::spec_from_byte(v) is Err,
{
}

/// The byte of each [`ClockSource`], as the MIDI implementation numbers them; no
/// other value names a variant.
pub proof fn lemma_clock_source_values()
    ensures
        ClockSource::AutoUsb.spec_byte() == 0,
        ClockSource::spec_from_byte(0) == Ok::<ClockSource, Error>(ClockSource::AutoUsb),
        ClockSource::AutoMidi.spec_byte() == 1,
        ClockSource::spec_from_byte(1) == Ok::<ClockSource, Error>(ClockSource::AutoMidi),
        ClockSource::Internal.spec_byte() == 2,
        ClockSource::spec_from_byte(2) == Ok::<ClockSource, Error>(ClockSource::Internal),
        forall|v: u8| v >= 3 ==> ClockSource::spec_from_byte(v) is Err,
{
}

/// The byte of each [`ParameterDisp`], as the MIDI implementation numbers them; no
/// other value names a variant.
pub proof fn lemma_parameter_disp_values()
    ensures
        ParameterDisp::Normal.spec_byte() == 0,
        ParameterDisp::spec_from_byte(0) == Ok::<ParameterDisp, Error>(ParameterDisp::Normal),
        ParameterDisp::All.spec_byte() == 1,
        ParameterDisp::spec_from_byte(1) == Ok::<ParameterDisp, Error>(ParameterDisp::All),
        forall|v: u8| v >= 2 ==> ParameterDisp::spec_from_byte(v) is Err,
{
}

/// The byte of each [`PolyChainMode`], as the MIDI implementation numbers them; no
/// other value names a variant.
pub proof fn lemma_poly_chain_mode_values()
    ensures
        PolyChainMode::Off.spec_byte() == 0,
        PolyChainMode::spec_from_byte(0) == Ok::<PolyChainMode, Error>(PolyChainMode::Off),
        PolyChainMode::Master.spec_byte() == 1,
        PolyChainMode::spec_from_byte(1) == Ok::<PolyChainMode, Error>(PolyChainMode::Master),
        PolyChainMode::Slave.spec_byte() == 2,
        PolyChainMode::spec_from_byte(2) == Ok::<PolyChainMode, Error>(PolyChainMode::Slave),
        forall|v: u8| v >= 3 ==> PolyChainMode::spec_from_byte(v) is Err,
{
}

/// The byte of each [`ShiftFunction`], as the MIDI implementation numbers them; no
/// other value names a variant.
pub proof fn lemma_shift_function_values()
    ensures
        ShiftFunction::Favorite.spec_byte() == 0,
        ShiftFunction::spec_from_byte(0) == Ok::<ShiftFunction, Error>(ShiftFunction::Favorite),
        ShiftFunction::ActiveStep.spec_byte() == 1,
        ShiftFunction::spec_from_byte(1) == Ok::<ShiftFunction, Error>(ShiftFunction::ActiveStep),
        forall|v: u8| v >= 2 ==> ShiftFunction::spec_from_byte(v) is Err,
{
}

/// The byte of each [`StepResolution`], as the MIDI implementation numbers them; no
/// other value names a variant.
pub proof fn lemma_step_resolution_values()
    ensures
        StepResolution::Sixteenth.spec_byte() == 0,
        StepResolution::spec_from_byte(0) == Ok::<StepResolution, Error>(StepResolution::Sixteenth),
        StepResolution::Eighth.spec_byte() == 1,
        StepResolution::spec_from_byte(1) == Ok::<StepResolution, Error>(StepResolution::Eighth),
        StepResolution::Quarter.spec_byte() == 2,
        StepResolution::spec_from_byte(2) == Ok::<StepResolution, Error>(StepResolution::Quarter),
        StepResolution::Half.spec_byte() == 3,
        StepResolution::spec_from_byte(3) == Ok::<StepResolution, Error>(StepResolution::Half),
        StepResolution::Whole.spec_byte() == 4,
        StepResolution::spec_from_byte(4) == Ok::<StepResolution, Error>(StepResolution::Whole),
        forall|v: u8| v >= 5 ==> StepResolution::spec_from_byte(v) is Err,
{
}

/// The byte of each [`ArpRate`], as the MIDI implementation numbers them; no
/// other value names a variant.
pub proof fn lemma_arp_rate_values()
    ensures
        ArpRate::Full.spec_byte() == 0,
        ArpRate::spec_from_byte(0) == Ok::<ArpRate, Error>(ArpRate::Full),
        ArpRate::ThreeQuarter.spec_byte() == 1,
        ArpRate::spec_from_byte(1) == Ok::<ArpRate, Error>(ArpRate::ThreeQuarter),
        ArpRate::TwoThird.spec_byte() == 2,
        ArpRate::spec_from_byte(2) == Ok::<ArpRate, Error>(ArpRate::TwoThird),
        ArpRate::Half.spec_byte() == 3,
        ArpRate::spec_from_byte(3) == Ok::<ArpRate, Error>(ArpRate::Half),
        ArpRate::ThreeEighth.spec_byte() == 4,
        ArpRate::spec_from_byte(4) == Ok::<ArpRate, Error>(ArpRate::ThreeEighth),
        ArpRate::OneThird.spec_byte() == 5,
        ArpRate::spec_from_byte(5) == Ok::<ArpRate, Error>(ArpRate::OneThird),
        ArpRate::Quarter.spec_byte() == 6,
        ArpRate::spec_from_byte(6) == Ok::<ArpRate, Error>(ArpRate::Quarter),
        ArpRate::ThreeSixteenth.spec_byte() == 7,
        ArpRate::spec_from_byte(7) == Ok::<ArpRate, Error>(ArpRate::ThreeSixteenth),
        ArpRate::OneSixth.spec_byte() == 8,
        ArpRate::spec_from_byte(8) == Ok::<ArpRate, Error>(ArpRate::OneSixth),
        ArpRate::Eighth.spec_byte() == 9,
        ArpRate::spec_from_byte(9) == Ok::<ArpRate, Error>(ArpRate::Eighth),
        ArpRate::OneTwelfth.spec_byte() == 10,
        ArpRate::spec_from_byte(10) == Ok::<ArpRate, Error>(ArpRate::OneTwelfth),
        forall|v: u8| v >= 11 ==> ArpRate::spec_from_byte(v) is Err,
{
}

} // verus!
