//! Global parameter blob: 63 bytes starting with the magic `GLOB`.
//!
//! | Offset | Field | Offset | Field |
//! |--------|-------|--------|-------|
//! | 0--3 | magic `GLOB` | 16 | MIDI channel |
//! | 4 | master tune | 17 | clock source |
//! | 5 | transpose | 18--24 | MIDI rx/tx switches |
//! | 6 | metronome | 25 | parameter display |
//! | 7 | damper polarity | 26 | brightness |
//! | 8 | local switch | 27 | auto power off |
//! | 9 | velocity curve | 28--59 | favorites 1--16 (lower, upper) |
//! | 10 | knob mode | 60 | poly chain mode |
//! | 11--14 | sync units and polarities | 61 | oscilloscope |
//! | 15 | MIDI route | 62 | shift function |
//!
//! Switches read any nonzero byte as on and are written as 0 or 1. The
//! favorite entries are single bytes, so they hold 0--255.

use vstd::prelude::*;

use crate::error::{Error, SysexError};
use crate::message::types::U4;
use crate::sysex::enums::{
    ClockSource, DamperPolarity, KnobMode, MidiRoute, ParameterDisp, PolyChainMode, ShiftFunction,
    SyncPolarity, SyncUnit, VelocityCurve,
};
use crate::sysex::frame::{
    self, build_sysex, build_sysex_request, frame_bytes, parse_sysex, GLOBAL_DATA_DUMP,
    GLOBAL_DATA_REQUEST,
};
use crate::codec::spec_encode_7bit;
use crate::sysex::frame::{dump_parses_as, lemma_frame_round_trip};

verus! {

/// A single favorite slot entry (lower and upper program references).
#[derive(Debug, Clone, Copy, PartialEq, Eq, Default, Structural)]
pub struct FavoriteEntry {
    /// Lower program reference.
    pub lower: u8,
    /// Upper program reference.
    pub upper: u8,
}

/// Global parameters.
#[derive(Debug, Clone, PartialEq)]
pub struct GlobalParams {
    /// Master tune, 0--100 with 50 for 0 cents.
    pub master_tune: u8,
    /// Transpose, 0--24 with 12 for 0 semitones.
    pub transpose: u8,
    /// Metronome on/off.
    pub metronome: bool,
    /// Damper pedal polarity.
    pub damper_polarity: DamperPolarity,
    /// Local sound on/off.
    pub local_sw: bool,
    /// Velocity curve selection.
    pub velocity_curve: VelocityCurve,
    /// Knob behavior mode.
    pub knob_mode: KnobMode,
    /// Sync input clock unit.
    pub sync_in_unit: SyncUnit,
    /// Sync output clock unit.
    pub sync_out_unit: SyncUnit,
    /// Sync input polarity.
    pub sync_in_polarity: SyncPolarity,
    /// Sync output polarity.
    pub sync_out_polarity: SyncPolarity,
    /// MIDI routing mode.
    pub midi_route: MidiRoute,
    /// MIDI channel (0--15).
    pub midi_channel: U4,
    /// Clock source selection.
    pub clock_source: ClockSource,
    /// Receive transport messages.
    pub en_rx_transport: bool,
    /// Receive program changes.
    pub midi_rx_prog_chg: bool,
    /// Receive control changes.
    pub midi_rx_cc: bool,
    /// Receive pitch bend.
    pub midi_rx_pitch_bend: bool,
    /// Transmit program changes.
    pub midi_tx_prog_chg: bool,
    /// Transmit control changes.
    pub midi_tx_cc: bool,
    /// Transmit pitch bend.
    pub midi_tx_pitch_bend: bool,
    /// Parameter display mode.
    pub parameter_disp: ParameterDisp,
    /// Display brightness (0--9).
    pub brightness: u8,
    /// Auto power off on/off.
    pub auto_power_off: bool,
    /// 16 favorite slots.
    pub favorites: [FavoriteEntry; 16],
    /// Poly chain mode.
    pub poly_chain: PolyChainMode,
    /// Oscilloscope display on/off.
    pub oscilloscope: bool,
    /// Shift button function.
    pub shift_function: ShiftFunction,
}

/// The magic bytes `GLOB`.
pub open spec fn glob_magic() -> Seq<u8> {
    seq![0x47u8, 0x4Cu8, 0x4Fu8, 0x42u8]
}

/// The first check that the blob `b` fails, if any: its length, its magic,
/// then each ranged or stepped field in blob order (master tune 0--100,
/// transpose 0--24, brightness 0--9).
pub open spec fn global_fault(b: Seq<u8>) -> Option<Error> {
    if b.len() < 63 {
        Some(Error::Sysex(SysexError::PayloadTooShort { expected: 63, actual: b.len() as usize }))
    } else if b.subrange(0, 4) != glob_magic() {
        Some(Error::Sysex(SysexError::InvalidMagic { expected: [0x47u8, 0x4Cu8, 0x4Fu8, 0x42u8], actual: [b[0], b[1], b[2], b[3]] }))
    } else if b[4] > 100 {
        Some(Error::OutOfRange { name: "master_tune", value: b[4] as i64, min: 0, max: 100 })
    } else if b[5] > 24 {
        Some(Error::OutOfRange { name: "transpose", value: b[5] as i64, min: 0, max: 24 })
    } else if let Err(e) = DamperPolarity::spec_from_byte(b[7]) {
        Some(e)
    } else if let Err(e) = VelocityCurve::spec_from_byte(b[9]) {
        Some(e)
    } else if let Err(e) = KnobMode::spec_from_byte(b[10]) {
        Some(e)
    } else if let Err(e) = SyncUnit::spec_from_byte(b[11]) {
        Some(e)
    } else if let Err(e) = SyncUnit::spec_from_byte(b[12]) {
        Some(e)
    } else if let Err(e) = SyncPolarity::spec_from_byte(b[13]) {
        Some(e)
    } else if let Err(e) = SyncPolarity::spec_from_byte(b[14]) {
        Some(e)
    } else if let Err(e) = MidiRoute::spec_from_byte(b[15]) {
        Some(e)
    } else if b[16] > 15 {
        Some(Error::OutOfRange { name: "U4", value: b[16] as i64, min: 0, max: 15 })
    } else if let Err(e) = ClockSource::spec_from_byte(b[17]) {
        Some(e)
    } else if let Err(e) = ParameterDisp::spec_from_byte(b[25]) {
        Some(e)
    } else if b[26] > 9 {
        Some(Error::OutOfRange { name: "brightness", value: b[26] as i64, min: 0, max: 9 })
    } else if let Err(e) = PolyChainMode::spec_from_byte(b[60]) {
        Some(e)
    } else if let Err(e) = ShiftFunction::spec_from_byte(b[62]) {
        Some(e)
    } else {
        None
    }
}

/// Every ranged field of `p` is within its range: master tune 0--100,
/// transpose 0--24, MIDI channel 0--15, brightness 0--9.
pub open spec fn global_in_range(p: GlobalParams) -> bool {
    &&& p.master_tune <= 100
    &&& p.transpose <= 24
    &&& p.midi_channel.value_of() <= 15
    &&& p.brightness <= 9
}

/// The favorite entries that the blob `b` stores at offsets 28--59.
pub open spec fn favorites_of(b: Seq<u8>) -> Seq<FavoriteEntry> {
    Seq::new(16, |i: int| FavoriteEntry { lower: b[28 + 2 * i], upper: b[29 + 2 * i] })
}

/// Every field of `p` is what the blob `b` stores.
pub open spec fn global_fields_match(b: Seq<u8>, p: GlobalParams) -> bool {
    &&& p.master_tune == b[4]
    &&& p.transpose == b[5]
    &&& p.metronome == (b[6] != 0)
    &&& DamperPolarity::spec_from_byte(b[7]) == Ok::<DamperPolarity, Error>(p.damper_polarity)
    &&& p.local_sw == (b[8] != 0)
    &&& VelocityCurve::spec_from_byte(b[9]) == Ok::<VelocityCurve, Error>(p.velocity_curve)
    &&& KnobMode::spec_from_byte(b[10]) == Ok::<KnobMode, Error>(p.knob_mode)
    &&& SyncUnit::spec_from_byte(b[11]) == Ok::<SyncUnit, Error>(p.sync_in_unit)
    &&& SyncUnit::spec_from_byte(b[12]) == Ok::<SyncUnit, Error>(p.sync_out_unit)
    &&& SyncPolarity::spec_from_byte(b[13]) == Ok::<SyncPolarity, Error>(p.sync_in_polarity)
    &&& SyncPolarity::spec_from_byte(b[14]) == Ok::<SyncPolarity, Error>(p.sync_out_polarity)
    &&& MidiRoute::spec_from_byte(b[15]) == Ok::<MidiRoute, Error>(p.midi_route)
    &&& p.midi_channel.value_of() == b[16]
    &&& ClockSource::spec_from_byte(b[17]) == Ok::<ClockSource, Error>(p.clock_source)
    &&& p.en_rx_transport == (b[18] != 0)
    &&& p.midi_rx_prog_chg == (b[19] != 0)
    &&& p.midi_rx_cc == (b[20] != 0)
    &&& p.midi_rx_pitch_bend == (b[21] != 0)
    &&& p.midi_tx_prog_chg == (b[22] != 0)
    &&& p.midi_tx_cc == (b[23] != 0)
    &&& p.midi_tx_pitch_bend == (b[24] != 0)
    &&& ParameterDisp::spec_from_byte(b[25]) == Ok::<ParameterDisp, Error>(p.parameter_disp)
    &&& p.brightness == b[26]
    &&& p.auto_power_off == (b[27] != 0)
    &&& p.favorites@ == favorites_of(b)
    &&& PolyChainMode::spec_from_byte(b[60]) == Ok::<PolyChainMode, Error>(p.poly_chain)
    &&& p.oscilloscope == (b[61] != 0)
    &&& ShiftFunction::spec_from_byte(b[62]) == Ok::<ShiftFunction, Error>(p.shift_function)
}

/// What [`GlobalParams::from_bytes`] returns for the blob `b`.
pub open spec fn global_parses_as(b: Seq<u8>, r: Result<GlobalParams, Error>) -> bool {
    match r {
        Ok(p) => global_fault(b) is None && global_fields_match(b, p),
        Err(e) => global_fault(b) == Some(e),
    }
}

/// [`global_parses_as`] as a value, for [`dump_parses_as`].
pub open spec fn global_blob_parser() -> spec_fn(Seq<u8>, Result<GlobalParams, Error>) -> bool {
    |b: Seq<u8>, q: Result<GlobalParams, Error>| global_parses_as(b, q)
}

/// The favorite entries as 32 bytes, lower then upper for each.
pub open spec fn favorites_bytes(f: Seq<FavoriteEntry>) -> Seq<u8> {
    Seq::new(32, |i: int| if i % 2 == 0 { f[i / 2].lower } else { f[i / 2].upper })
}

/// The byte that stores a switch: 1 for on, 0 for off.
pub open spec fn switch_value(on: bool) -> u8 {
    if on {
        1
    } else {
        0
    }
}

/// The byte at offset `i` of the blob that [`GlobalParams::to_bytes`] writes for `p`.
pub open spec fn global_byte_at(p: GlobalParams, i: int) -> u8 {
    if i == 0 {
        0x47u8
    } else if i == 1 {
        0x4Cu8
    } else if i == 2 {
        0x4Fu8
    } else if i == 3 {
        0x42u8
    } else if i == 4 {
        p.master_tune
    } else if i == 5 {
        p.transpose
    } else if i == 6 {
        switch_value(p.metronome)
    } else if i == 7 {
        p.damper_polarity.spec_byte()
    } else if i == 8 {
        switch_value(p.local_sw)
    } else if i == 9 {
        p.velocity_curve.spec_byte()
    } else if i == 10 {
        p.knob_mode.spec_byte()
    } else if i == 11 {
        p.sync_in_unit.spec_byte()
    } else if i == 12 {
        p.sync_out_unit.spec_byte()
    } else if i == 13 {
        p.sync_in_polarity.spec_byte()
    } else if i == 14 {
        p.sync_out_polarity.spec_byte()
    } else if i == 15 {
        p.midi_route.spec_byte()
    } else if i == 16 {
        p.midi_channel.value_of()
    } else if i == 17 {
        p.clock_source.spec_byte()
    } else if i == 18 {
        switch_value(p.en_rx_transport)
    } else if i == 19 {
        switch_value(p.midi_rx_prog_chg)
    } else if i == 20 {
        switch_value(p.midi_rx_cc)
    } else if i == 21 {
        switch_value(p.midi_rx_pitch_bend)
    } else if i == 22 {
        switch_value(p.midi_tx_prog_chg)
    } else if i == 23 {
        switch_value(p.midi_tx_cc)
    } else if i == 24 {
        switch_value(p.midi_tx_pitch_bend)
    } else if i == 25 {
        p.parameter_disp.spec_byte()
    } else if i == 26 {
        p.brightness
    } else if i == 27 {
        switch_value(p.auto_power_off)
    } else if i < 60 {
        let f = p.favorites@[(i - 28) / 2];
        if (i - 28) % 2 == 0 {
            f.lower
        } else {
            f.upper
        }
    } else if i == 60 {
        p.poly_chain.spec_byte()
    } else if i == 61 {
        switch_value(p.oscilloscope)
    } else {
        p.shift_function.spec_byte()
    }
}

/// The 63-byte blob that [`GlobalParams::to_bytes`] writes for `p`.
pub open spec fn global_bytes(p: GlobalParams) -> Seq<u8> {
    Seq::new(63, |i: int| global_byte_at(p, i))
}


/// The byte that stores a switch: 1 for on, 0 for off.
pub fn switch_byte(on: bool) -> (b: u8)
    ensures
        b == switch_value(on),
{
    if on {
        1
    } else {
        0
    }
}

impl GlobalParams {
    /// Total size of the raw global data blob in bytes.
    pub const BLOB_SIZE: usize = 63;

    /// The magic bytes `GLOB` at the start of the blob.
    pub const MAGIC: &'static [u8; 4] = &[0x47, 0x4C, 0x4F, 0x42];

    /// The byte at offset `i` of the blob.
    fn byte_at(&self, i: usize) -> (v: u8)
        requires
            i < 63,
        ensures
            v == global_byte_at(*self, i as int),
    {
        if i == 0 {
            0x47
        } else if i == 1 {
            0x4C
        } else if i == 2 {
            0x4F
        } else if i == 3 {
            0x42
        } else if i == 4 {
            self.master_tune
        } else if i == 5 {
            self.transpose
        } else if i == 6 {
            switch_byte(self.metronome)
        } else if i == 7 {
            self.damper_polarity.to_byte()
        } else if i == 8 {
            switch_byte(self.local_sw)
        } else if i == 9 {
            self.velocity_curve.to_byte()
        } else if i == 10 {
            self.knob_mode.to_byte()
        } else if i == 11 {
            self.sync_in_unit.to_byte()
        } else if i == 12 {
            self.sync_out_unit.to_byte()
        } else if i == 13 {
            self.sync_in_polarity.to_byte()
        } else if i == 14 {
            self.sync_out_polarity.to_byte()
        } else if i == 15 {
            self.midi_route.to_byte()
        } else if i == 16 {
            self.midi_channel.value()
        } else if i == 17 {
            self.clock_source.to_byte()
        } else if i == 18 {
            switch_byte(self.en_rx_transport)
        } else if i == 19 {
            switch_byte(self.midi_rx_prog_chg)
        } else if i == 20 {
            switch_byte(self.midi_rx_cc)
        } else if i == 21 {
            switch_byte(self.midi_rx_pitch_bend)
        } else if i == 22 {
            switch_byte(self.midi_tx_prog_chg)
        } else if i == 23 {
            switch_byte(self.midi_tx_cc)
        } else if i == 24 {
            switch_byte(self.midi_tx_pitch_bend)
        } else if i == 25 {
            self.parameter_disp.to_byte()
        } else if i == 26 {
            self.brightness
        } else if i == 27 {
            switch_byte(self.auto_power_off)
        } else if i < 60 {
            let f = self.favorites[(i - 28) / 2];
            if (i - 28) % 2 == 0 {
                f.lower
            } else {
                f.upper
            }
        } else if i == 60 {
            self.poly_chain.to_byte()
        } else if i == 61 {
            switch_byte(self.oscilloscope)
        } else {
            self.shift_function.to_byte()
        }
    }

    /// Serialize the global parameters to the 63-byte blob.
    pub fn to_bytes(&self) -> (out: Vec<u8>)
        ensures
            out@ == global_bytes(*self),
            out@.len() == 63,
    {
        let mut out: Vec<u8> = Vec::new();
        let mut i: usize = 0;
        while i < Self::BLOB_SIZE
            invariant
                i <= 63,
                out@ == global_bytes(*self).take(i as int),
            decreases 63 - i,
        {
            let v = self.byte_at(i);
            out.push(v);
            assert(global_bytes(*self).take(i + 1) =~= global_bytes(*self).take(i as int).push(v));
            i = i + 1;
        }
        assert(global_bytes(*self).take(63) =~= global_bytes(*self));
        out
    }

    /// Parse a global parameter blob; bytes beyond the 63 of the blob are
    /// ignored.
    ///
    /// Fails when the data is too short, the magic is not `GLOB`, a ranged
    /// field is out of its range (master tune 0--100, transpose 0--24,
    /// brightness 0--9), or a stepped field holds a value without a variant;
    /// the first such fault in blob order is reported.
    pub fn from_bytes(data: &[u8]) -> (r: Result<Self, Error>)
        ensures
            global_parses_as(data@, r),
    {
        if data.len() < Self::BLOB_SIZE {
            return Err(Error::Sysex(SysexError::PayloadTooShort { expected: Self::BLOB_SIZE, actual: data.len() }));
        }
        if data[0] != 0x47 || data[1] != 0x4C || data[2] != 0x4F || data[3] != 0x42 {
            return Err(Error::Sysex(SysexError::InvalidMagic {
                expected: [0x47, 0x4C, 0x4F, 0x42],
                actual: [data[0], data[1], data[2], data[3]],
            }));
        }
        assert(data@.subrange(0, 4) =~= glob_magic());
        let master_tune = data[4];
        if master_tune > 100 {
            return Err(Error::OutOfRange { name: "master_tune", value: master_tune as i64, min: 0, max: 100 });
        }
        let transpose = data[5];
        if transpose > 24 {
            return Err(Error::OutOfRange { name: "transpose", value: transpose as i64, min: 0, max: 24 });
        }
        let metronome = data[6] != 0;
        let damper_polarity = DamperPolarity::from_byte(data[7])?;
        let local_sw = data[8] != 0;
        let velocity_curve = VelocityCurve::from_byte(data[9])?;
        let knob_mode = KnobMode::from_byte(data[10])?;
        let sync_in_unit = SyncUnit::from_byte(data[11])?;
        let sync_out_unit = SyncUnit::from_byte(data[12])?;
        let sync_in_polarity = SyncPolarity::from_byte(data[13])?;
        let sync_out_polarity = SyncPolarity::from_byte(data[14])?;
        let midi_route = MidiRoute::from_byte(data[15])?;
        let midi_channel = U4::new(data[16])?;
        let clock_source = ClockSource::from_byte(data[17])?;
        let en_rx_transport = data[18] != 0;
        let midi_rx_prog_chg = data[19] != 0;
        let midi_rx_cc = data[20] != 0;
        let midi_rx_pitch_bend = data[21] != 0;
        let midi_tx_prog_chg = data[22] != 0;
        let midi_tx_cc = data[23] != 0;
        let midi_tx_pitch_bend = data[24] != 0;
        let parameter_disp = ParameterDisp::from_byte(data[25])?;
        let brightness = data[26];
        if brightness > 9 {
            return Err(Error::OutOfRange { name: "brightness", value: brightness as i64, min: 0, max: 9 });
        }
        let auto_power_off = data[27] != 0;

        let mut favorites = [FavoriteEntry { lower: 0, upper: 0 }; 16];
        let mut i: usize = 0;
        while i < 16
            invariant
                i <= 16,
                data@.len() >= 63,
                forall|j: int| 0 <= j < i ==> #[trigger] favorites@[j] == favorites_of(data@)[j],
            decreases 16 - i,
        {
            let base = 28 + i * 2;
            favorites[i] = FavoriteEntry { lower: data[base], upper: data[base + 1] };
            i = i + 1;
        }
        assert(favorites@ =~= favorites_of(data@));

        let poly_chain = PolyChainMode::from_byte(data[60])?;
        let oscilloscope = data[61] != 0;
        let shift_function = ShiftFunction::from_byte(data[62])?;

        Ok(Self {
            master_tune,
            transpose,
            metronome,
            damper_polarity,
            local_sw,
            velocity_curve,
            knob_mode,
            sync_in_unit,
            sync_out_unit,
            sync_in_polarity,
            sync_out_polarity,
            midi_route,
            midi_channel,
            clock_source,
            en_rx_transport,
            midi_rx_prog_chg,
            midi_rx_cc,
            midi_rx_pitch_bend,
            midi_tx_prog_chg,
            midi_tx_cc,
            midi_tx_pitch_bend,
            parameter_disp,
            brightness,
            auto_power_off,
            favorites,
            poly_chain,
            oscilloscope,
            shift_function,
        })
    }
}

impl Default for GlobalParams {
    /// Factory-default global parameters.
    fn default() -> (p: Self)
        ensures
            p.master_tune == 50 && p.transpose == 12 && !p.metronome,
            p.damper_polarity == DamperPolarity::Normal && p.local_sw,
            p.velocity_curve == VelocityCurve::Type4 && p.knob_mode == KnobMode::Jump,
            p.sync_in_unit == SyncUnit::Sixteenth && p.sync_out_unit == SyncUnit::Sixteenth,
            p.sync_in_polarity == SyncPolarity::Rise && p.sync_out_polarity == SyncPolarity::Rise,
            p.midi_route == MidiRoute::UsbAndMidi && p.midi_channel.value_of() == 0,
            p.clock_source == ClockSource::AutoUsb,
            p.en_rx_transport && p.midi_rx_prog_chg && p.midi_rx_cc && p.midi_rx_pitch_bend,
            p.midi_tx_prog_chg && p.midi_tx_cc && p.midi_tx_pitch_bend,
            p.parameter_disp == ParameterDisp::Normal && p.brightness == 5 && !p.auto_power_off,
            forall|i: int| 0 <= i < 16 ==> #[trigger] p.favorites@[i] == (FavoriteEntry { lower: 0, upper: 0 }),
            p.poly_chain == PolyChainMode::Off && p.oscilloscope,
            p.shift_function == ShiftFunction::Favorite,
    {
        Self {
            master_tune: 50,
            transpose: 12,
            metronome: false,
            damper_polarity: DamperPolarity::Normal,
            local_sw: true,
            velocity_curve: VelocityCurve::Type4,
            knob_mode: KnobMode::Jump,
            sync_in_unit: SyncUnit::Sixteenth,
            sync_out_unit: SyncUnit::Sixteenth,
            sync_in_polarity: SyncPolarity::Rise,
            sync_out_polarity: SyncPolarity::Rise,
            midi_route: MidiRoute::UsbAndMidi,
            midi_channel: U4::from_low_nibble(0),
            clock_source: ClockSource::AutoUsb,
            en_rx_transport: true,
            midi_rx_prog_chg: true,
            midi_rx_cc: true,
            midi_rx_pitch_bend: true,
            midi_tx_prog_chg: true,
            midi_tx_cc: true,
            midi_tx_pitch_bend: true,
            parameter_disp: ParameterDisp::Normal,
            brightness: 5,
            auto_power_off: false,
            favorites: [FavoriteEntry { lower: 0, upper: 0 }; 16],
            poly_chain: PolyChainMode::Off,
            oscilloscope: true,
            shift_function: ShiftFunction::Favorite,
        }
    }
}

/// Build a SysEx global data request message.
pub fn build_global_request(channel: U4) -> (msg: Vec<u8>)
    ensures
        msg@ == frame_bytes(channel.value_of(), GLOBAL_DATA_REQUEST, Seq::empty()),
{
    build_sysex_request(channel, GLOBAL_DATA_REQUEST)
}

/// Build a SysEx global data dump message: the 63-byte blob in a frame
/// with function ID [`GLOBAL_DATA_DUMP`].
pub fn build_global_dump(channel: U4, params: &GlobalParams) -> (msg: Vec<u8>)
    ensures
        msg@ == frame_bytes(channel.value_of(), GLOBAL_DATA_DUMP, spec_encode_7bit(global_bytes(*params))),
{
    let blob = params.to_bytes();
    build_sysex(channel, GLOBAL_DATA_DUMP, blob.as_slice())
}

/// Parse a SysEx global data dump message into [`GlobalParams`].
pub fn parse_global_dump(bytes: &[u8]) -> (r: Result<GlobalParams, Error>)
    ensures
        dump_parses_as(bytes@, GLOBAL_DATA_DUMP, global_blob_parser(), r),
{
    let parsed = parse_sysex(bytes)?;
    if parsed.function_id != GLOBAL_DATA_DUMP {
        return Err(Error::Sysex(SysexError::WrongFunctionId { expected: GLOBAL_DATA_DUMP, found: parsed.function_id }));
    }
    GlobalParams::from_bytes(parsed.data.as_slice())
}

proof fn lemma_global_bytes_valid(p: GlobalParams)
    requires
        global_in_range(p),
    ensures
        global_fault(global_bytes(p)) is None,
        global_fields_match(global_bytes(p), p),
{
    let b = global_bytes(p);
    assert(b.subrange(0, 4) =~= glob_magic());
    assert(b[7] == p.damper_polarity.spec_byte());
    assert(b[9] == p.velocity_curve.spec_byte());
    assert(b[10] == p.knob_mode.spec_byte());
    assert(b[11] == p.sync_in_unit.spec_byte());
    assert(b[12] == p.sync_out_unit.spec_byte());
    assert(b[13] == p.sync_in_polarity.spec_byte());
    assert(b[14] == p.sync_out_polarity.spec_byte());
    assert(b[15] == p.midi_route.spec_byte());
    assert(b[16] == p.midi_channel.value_of());
    assert(b[17] == p.clock_source.spec_byte());
    assert(b[25] == p.parameter_disp.spec_byte());
    assert(b[60] == p.poly_chain.spec_byte());
    assert(b[62] == p.shift_function.spec_byte());
    p.damper_polarity.lemma_byte_round_trip(0);
    p.velocity_curve.lemma_byte_round_trip(0);
    p.knob_mode.lemma_byte_round_trip(0);
    p.sync_in_unit.lemma_byte_round_trip(0);
    p.sync_out_unit.lemma_byte_round_trip(0);
    p.sync_in_polarity.lemma_byte_round_trip(0);
    p.sync_out_polarity.lemma_byte_round_trip(0);
    p.midi_route.lemma_byte_round_trip(0);
    p.clock_source.lemma_byte_round_trip(0);
    p.parameter_disp.lemma_byte_round_trip(0);
    p.poly_chain.lemma_byte_round_trip(0);
    p.shift_function.lemma_byte_round_trip(0);
    assert(favorites_of(b) =~= p.favorites@);
}

/// A blob written by [`GlobalParams::to_bytes`] passes every check of
/// [`GlobalParams::from_bytes`] and reads back as the same parameters.
pub proof fn lemma_global_round_trip(p: GlobalParams)
    requires
        global_in_range(p),
    ensures
        global_fault(global_bytes(p)) is None,
        forall|r: Result<GlobalParams, Error>| global_parses_as(global_bytes(p), r) ==> r == Ok::<GlobalParams, Error>(p),
{
    let b = global_bytes(p);
    lemma_global_bytes_valid(p);
    assert forall|r: Result<GlobalParams, Error>| global_parses_as(b, r) implies r == Ok::<GlobalParams, Error>(p) by {
        if let Ok(q) = r {
            U4::lemma_value_determines(q.midi_channel, p.midi_channel);
            assert(q.favorites =~= p.favorites);
            p.damper_polarity.lemma_byte_round_trip(b[7]);
            p.velocity_curve.lemma_byte_round_trip(b[9]);
            p.knob_mode.lemma_byte_round_trip(b[10]);
            p.sync_in_unit.lemma_byte_round_trip(b[11]);
            p.sync_out_unit.lemma_byte_round_trip(b[12]);
            p.sync_in_polarity.lemma_byte_round_trip(b[13]);
            p.sync_out_polarity.lemma_byte_round_trip(b[14]);
            p.midi_route.lemma_byte_round_trip(b[15]);
            p.clock_source.lemma_byte_round_trip(b[17]);
            p.parameter_disp.lemma_byte_round_trip(b[25]);
            p.poly_chain.lemma_byte_round_trip(b[60]);
            p.shift_function.lemma_byte_round_trip(b[62]);
        }
    }
}

/// Writing back parameters that were read from a blob whose switches are
/// stored as 0 or 1 gives back the blob's 63 bytes.
pub proof fn lemma_global_rewrite(b: Seq<u8>, p: GlobalParams)
    requires
        global_fault(b) is None,
        global_fields_match(b, p),
        forall|i: int| #![trigger b[i]] (6 <= i <= 27 && i != 7 && i != 9 && (i < 10 || i > 17) && i != 25 && i != 26) || i == 61 ==> b[i] <= 1,
    ensures
        global_bytes(p) == b.subrange(0, 63),
{
    let (b7, b9, b10, b11, b12, b13, b14, b15, b17, b25, b60, b62) = (b[7], b[9], b[10], b[11], b[12], b[13], b[14], b[15], b[17], b[25], b[60], b[62]);
    p.damper_polarity.lemma_byte_round_trip(b7);
    p.velocity_curve.lemma_byte_round_trip(b9);
    p.knob_mode.lemma_byte_round_trip(b10);
    p.sync_in_unit.lemma_byte_round_trip(b11);
    p.sync_out_unit.lemma_byte_round_trip(b12);
    p.sync_in_polarity.lemma_byte_round_trip(b13);
    p.sync_out_polarity.lemma_byte_round_trip(b14);
    p.midi_route.lemma_byte_round_trip(b15);
    p.clock_source.lemma_byte_round_trip(b17);
    p.parameter_disp.lemma_byte_round_trip(b25);
    p.poly_chain.lemma_byte_round_trip(b60);
    p.shift_function.lemma_byte_round_trip(b62);
    assert(b.subrange(0, 4) =~= glob_magic());
    assert(b[0] == 0x47 && b[1] == 0x4C && b[2] == 0x4F && b[3] == 0x42) by {
        assert(b.subrange(0, 4)[0] == b[0] && b.subrange(0, 4)[1] == b[1]);
        assert(b.subrange(0, 4)[2] == b[2] && b.subrange(0, 4)[3] == b[3]);
    }
    let (b6, b8, b18, b19, b20, b21, b22, b23, b24, b27, b61) = (b[6], b[8], b[18], b[19], b[20], b[21], b[22], b[23], b[24], b[27], b[61]);
    assert(global_bytes(p) =~= b.subrange(0, 63));
}

/// Parsing a global dump that [`build_global_dump`] built gives back the
/// same parameters.
pub proof fn lemma_global_dump_round_trip(channel: u8, p: GlobalParams)
    requires
        channel <= 15,
        global_in_range(p),
    ensures
        forall|r: Result<GlobalParams, Error>|
            #[trigger] dump_parses_as(
                frame_bytes(channel, GLOBAL_DATA_DUMP, spec_encode_7bit(global_bytes(p))),
                GLOBAL_DATA_DUMP,
                global_blob_parser(),
                r,
            ) ==> r == Ok::<GlobalParams, Error>(p),
{
    lemma_frame_round_trip(channel, GLOBAL_DATA_DUMP, global_bytes(p));
    lemma_global_round_trip(p);
}


/// The layout of the global blob, field by field (MIDI implementation,
/// global data): a blob that [`GlobalParams::from_bytes`] accepts gives
/// master tune from offset 4, transpose from 5, metronome from 6, damper
/// polarity from 7, local switch from 8, velocity curve from 9, knob mode
/// from 10, sync in/out unit from 11/12, sync in/out polarity from 13/14,
/// MIDI route from 15, MIDI channel from 16, clock source from 17, the
/// receive switches (transport, program change, CC, pitch bend) from 18--21,
/// the transmit switches (program change, CC, pitch bend) from 22--24,
/// parameter display from 25, brightness from 26, auto power off from 27,
/// the 16 favorites (lower, upper) from 28--59, poly chain from 60,
/// oscilloscope from 61 and shift function from 62.
pub proof fn lemma_global_read_layout(b: Seq<u8>, p: GlobalParams)
    requires
        global_parses_as(b, Ok::<GlobalParams, Error>(p)),
    ensures
        p.master_tune == b[4],
        p.transpose == b[5],
        p.brightness == b[26],
        p.metronome == (b[6] != 0),
        p.local_sw == (b[8] != 0),
        p.en_rx_transport == (b[18] != 0),
        p.midi_rx_prog_chg == (b[19] != 0),
        p.midi_rx_cc == (b[20] != 0),
        p.midi_rx_pitch_bend == (b[21] != 0),
        p.midi_tx_prog_chg == (b[22] != 0),
        p.midi_tx_cc == (b[23] != 0),
        p.midi_tx_pitch_bend == (b[24] != 0),
        p.auto_power_off == (b[27] != 0),
        p.oscilloscope == (b[61] != 0),
        p.damper_polarity.spec_byte() == b[7],
        p.velocity_curve.spec_byte() == b[9],
        p.knob_mode.spec_byte() == b[10],
        p.sync_in_unit.spec_byte() == b[11],
        p.sync_out_unit.spec_byte() == b[12],
        p.sync_in_polarity.spec_byte() == b[13],
        p.sync_out_polarity.spec_byte() == b[14],
        p.midi_route.spec_byte() == b[15],
        p.clock_source.spec_byte() == b[17],
        p.parameter_disp.spec_byte() == b[25],
        p.poly_chain.spec_byte() == b[60],
        p.shift_function.spec_byte() == b[62],
        p.midi_channel.value_of() == b[16],
        forall|k: int| 0 <= k < 16 ==> (#[trigger] p.favorites@[k]).lower == b[28 + 2 * k] && p.favorites@[k].upper == b[29 + 2 * k],
{
    p.damper_polarity.lemma_byte_round_trip(b[7]);
    p.velocity_curve.lemma_byte_round_trip(b[9]);
    p.knob_mode.lemma_byte_round_trip(b[10]);
    p.sync_in_unit.lemma_byte_round_trip(b[11]);
    p.sync_out_unit.lemma_byte_round_trip(b[12]);
    p.sync_in_polarity.lemma_byte_round_trip(b[13]);
    p.sync_out_polarity.lemma_byte_round_trip(b[14]);
    p.midi_route.lemma_byte_round_trip(b[15]);
    p.clock_source.lemma_byte_round_trip(b[17]);
    p.parameter_disp.lemma_byte_round_trip(b[25]);
    p.poly_chain.lemma_byte_round_trip(b[60]);
    p.shift_function.lemma_byte_round_trip(b[62]);
    assert forall|k: int| 0 <= k < 16 implies (#[trigger] p.favorites@[k]).lower == b[28 + 2 * k] && p.favorites@[k].upper == b[29 + 2 * k] by {
        assert(p.favorites@[k] == favorites_of(b)[k]);
    }
}

/// The layout of the blob that [`GlobalParams::to_bytes`] writes: `GLOB`,
/// then each field at the offset that [`lemma_global_read_layout`] reads it
/// from, each switch as 0 or 1.
pub proof fn lemma_global_write_layout(p: GlobalParams)
    ensures
        global_bytes(p).len() == 63,
        global_bytes(p)[0] == 0x47 && global_bytes(p)[1] == 0x4C && global_bytes(p)[2] == 0x4F && global_bytes(p)[3] == 0x42,
        global_bytes(p)[4] == p.master_tune,
        global_bytes(p)[5] == p.transpose,
        global_bytes(p)[26] == p.brightness,
        global_bytes(p)[6] == (if p.metronome { 1u8 } else { 0u8 }),
        global_bytes(p)[8] == (if p.local_sw { 1u8 } else { 0u8 }),
        global_bytes(p)[18] == (if p.en_rx_transport { 1u8 } else { 0u8 }),
        global_bytes(p)[19] == (if p.midi_rx_prog_chg { 1u8 } else { 0u8 }),
        global_bytes(p)[20] == (if p.midi_rx_cc { 1u8 } else { 0u8 }),
        global_bytes(p)[21] == (if p.midi_rx_pitch_bend { 1u8 } else { 0u8 }),
        global_bytes(p)[22] == (if p.midi_tx_prog_chg { 1u8 } else { 0u8 }),
        global_bytes(p)[23] == (if p.midi_tx_cc { 1u8 } else { 0u8 }),
        global_bytes(p)[24] == (if p.midi_tx_pitch_bend { 1u8 } else { 0u8 }),
        global_bytes(p)[27] == (if p.auto_power_off { 1u8 } else { 0u8 }),
        global_bytes(p)[61] == (if p.oscilloscope { 1u8 } else { 0u8 }),
        global_bytes(p)[7] == p.damper_polarity.spec_byte(),
        global_bytes(p)[9] == p.velocity_curve.spec_byte(),
        global_bytes(p)[10] == p.knob_mode.spec_byte(),
        global_bytes(p)[11] == p.sync_in_unit.spec_byte(),
        global_bytes(p)[12] == p.sync_out_unit.spec_byte(),
        global_bytes(p)[13] == p.sync_in_polarity.spec_byte(),
        global_bytes(p)[14] == p.sync_out_polarity.spec_byte(),
        global_bytes(p)[15] == p.midi_route.spec_byte(),
        global_bytes(p)[17] == p.clock_source.spec_byte(),
        global_bytes(p)[25] == p.parameter_disp.spec_byte(),
        global_bytes(p)[60] == p.poly_chain.spec_byte(),
        global_bytes(p)[62] == p.shift_function.spec_byte(),
        global_bytes(p)[16] == p.midi_channel.value_of(),
        forall|k: int| 0 <= k < 16 ==> global_bytes(p)[28 + 2 * k] == (#[trigger] p.favorites@[k]).lower && global_bytes(p)[29 + 2 * k] == p.favorites@[k].upper,
{
    assert forall|k: int| 0 <= k < 16 implies global_bytes(p)[28 + 2 * k] == (#[trigger] p.favorites@[k]).lower && global_bytes(p)[29 + 2 * k] == p.favorites@[k].upper by {
        assert((28 + 2 * k - 28) / 2 == k && (28 + 2 * k - 28) % 2 == 0);
        assert((29 + 2 * k - 28) / 2 == k && (29 + 2 * k - 28) % 2 == 1);
    }
}

} // verus!
