//! Synth parameters of the program blob (offsets 0--155) and the
//! 12-character [`ProgramName`].
//!
//! Switches read any nonzero byte as on, except `sync` and `ring`, which the
//! blob stores inverted (0 = on). 10-bit values use the little-endian pair
//! of [`read_10bit`]; the upper 6 bits of their high byte belong to other
//! data. Writing over a base blob ([`SynthParams::to_bytes_with_base`])
//! keeps every bit of the base that the parameters do not change.

use vstd::prelude::*;

use crate::error::{Error, SysexError};
use crate::param::enums::{
    CutoffDrive, CutoffKeytrack, CvInMode, DelaySubType, EgTarget, LfoMode, LfoTarget, LfoTargetOsc, LfoWave, ModAssignTarget, MultiRouting, MultiSelectNoise, MultiType, PortamentoMode, ReverbSubType, UserParamType, VcoOctave, VcoWave, MicroTuning, MultiSelectUser, MultiSelectVpm, ModFxType, VoiceModeType,
};
use crate::sysex::helpers::{lemma_ten_bit_rewrite, lemma_ten_bit_round_trip, read_10bit, ten_bit_high, ten_bit_low, ten_bit_value};
use crate::text::ascii_str;
use vstd::string::StringSliceAdditionalSpecFns;

verus! {

// ---------------------------------------------------------------------------
// ProgramName
// ---------------------------------------------------------------------------

/// `b` is in the program-name character set: space, `!`, `#`--`*`,
/// `,`--`:`, `?`, `A`--`Z`, `a`--`z`.
pub open spec fn is_name_byte(b: u8) -> bool {
    b == 32 || b == 33 || (35 <= b <= 42) || (44 <= b <= 58) || b == 63 || (65 <= b <= 90) || (97
        <= b <= 122)
}

/// Returns `true` if `b` is a valid program-name byte.
pub fn is_valid_name_byte(b: u8) -> (r: bool)
    ensures
        r == is_name_byte(b),
{
    b == 32 || b == 33 || (35 <= b && b <= 42) || (44 <= b && b <= 58) || b == 63 || (65 <= b && b
        <= 90) || (97 <= b && b <= 122)
}

/// The first byte of `s` outside the name character set, if any.
pub open spec fn first_invalid_name_byte(s: Seq<u8>) -> Option<u8>
    decreases s.len(),
{
    if s.len() == 0 {
        None
    } else if !is_name_byte(s[0]) {
        Some(s[0])
    } else {
        first_invalid_name_byte(s.drop_first())
    }
}

/// Every byte of `s` is in the name character set.
pub open spec fn valid_name(s: Seq<u8>) -> bool {
    forall|i: int| 0 <= i < s.len() ==> #[trigger] is_name_byte(s[i])
}

/// A sequence has no invalid byte exactly when all its bytes are valid.
pub proof fn lemma_first_invalid_none(s: Seq<u8>)
    ensures
        first_invalid_name_byte(s) is None <==> valid_name(s),
    decreases s.len(),
{
    if s.len() > 0 {
        lemma_first_invalid_none(s.drop_first());
        if is_name_byte(s[0]) && valid_name(s.drop_first()) {
            assert forall|i: int| 0 <= i < s.len() implies #[trigger] is_name_byte(s[i]) by {
                if i > 0 {
                    assert(s[i] == s.drop_first()[i - 1]);
                }
            }
        }
        if valid_name(s) {
            assert(is_name_byte(s[0]));
            assert forall|i: int| 0 <= i < s.drop_first().len() implies #[trigger] is_name_byte(s.drop_first()[i]) by {
                assert(s.drop_first()[i] == s[i + 1]);
            }
        }
    }
}

/// The 12 name bytes that `from_string` makes of the bytes `s`: the first
/// 12, padded with spaces.
pub open spec fn padded_name(s: Seq<u8>) -> Seq<u8> {
    Seq::new(12, |i: int| if i < s.len() { s[i] } else { 32u8 })
}

/// `s` without its trailing spaces.
pub open spec fn trim_trailing_spaces(s: Seq<u8>) -> Seq<u8>
    decreases s.len(),
{
    if s.len() > 0 && s.last() == 32 {
        trim_trailing_spaces(s.drop_last())
    } else {
        s
    }
}

/// The characters of the ASCII bytes `s`.
pub open spec fn ascii_chars(s: Seq<u8>) -> Seq<char> {
    Seq::new(s.len(), |i: int| s[i] as char)
}

/// A 12-character program name in the restricted character set, padded on
/// the right with spaces.
#[derive(Debug, Clone, Copy, Eq)]
pub struct ProgramName([u8; 12]);

impl ProgramName {
    #[verifier::type_invariant]
    spec fn is_valid(self) -> bool {
        valid_name(self.0@)
    }

    /// The 12 bytes of the name.
    pub closed spec fn bytes_of(self) -> Seq<u8> {
        self.0@
    }

    /// Two names with the same bytes are the same name.
    pub proof fn lemma_bytes_determine(a: Self, b: Self)
        ensures
            a.bytes_of() == b.bytes_of() ==> a == b,
    {
        if a.bytes_of() == b.bytes_of() {
            assert(a.0 =~= b.0);
        }
    }

    /// Create a name from 12 raw bytes; fails on the first byte outside the
    /// character set.
    pub fn new(bytes: [u8; 12]) -> (r: Result<Self, Error>)
        ensures
            match first_invalid_name_byte(bytes@) {
                Some(b) => r == Err::<Self, Error>(Error::Sysex(SysexError::InvalidProgramNameChar(b))),
                None => r matches Ok(n) && n.bytes_of() == bytes@,
            },
    {
        let mut i: usize = 0;
        assert(bytes@.skip(0) =~= bytes@);
        while i < 12
            invariant
                i <= 12,
                first_invalid_name_byte(bytes@) == first_invalid_name_byte(bytes@.skip(i as int)),
                forall|j: int| 0 <= j < i ==> #[trigger] is_name_byte(bytes@[j]),
            decreases 12 - i,
        {
            let b = bytes[i];
            if !is_valid_name_byte(b) {
                return Err(Error::Sysex(SysexError::InvalidProgramNameChar(b)));
            }
            assert(bytes@.skip(i as int).drop_first() =~= bytes@.skip(i + 1));
            i = i + 1;
        }
        assert(bytes@.skip(12) =~= Seq::<u8>::empty());
        assert(valid_name(bytes@));
        Ok(ProgramName(bytes))
    }

    /// Create a name from a string: its first 12 bytes, padded with spaces;
    /// fails on the first byte outside the character set.
    pub fn from_string(s: &str) -> (r: Result<Self, Error>)
        ensures
            match first_invalid_name_byte(padded_name(s.spec_bytes())) {
                Some(b) => r == Err::<Self, Error>(Error::Sysex(SysexError::InvalidProgramNameChar(b))),
                None => r matches Ok(n) && n.bytes_of() == padded_name(s.spec_bytes()),
            },
    {
        let src = s.as_bytes();
        let mut bytes = [32u8; 12];
        let len: usize = if src.len() < 12 { src.len() } else { 12 };
        let mut i: usize = 0;
        while i < 12
            invariant
                i <= 12,
                len <= 12,
                len <= src@.len(),
                len == src@.len() || len == 12,
                src@ == s.spec_bytes(),
                forall|j: int| 0 <= j < i ==> #[trigger] bytes@[j] == padded_name(src@)[j],
            decreases 12 - i,
        {
            if i < len {
                bytes[i] = src[i];
            } else {
                bytes[i] = 32;
            }
            i = i + 1;
        }
        assert(bytes@ =~= padded_name(src@));
        Self::new(bytes)
    }

    /// The raw 12-byte array; every byte is in the name character set.
    pub fn as_bytes(&self) -> (b: &[u8; 12])
        ensures
            b@ == self.bytes_of(),
            valid_name(self.bytes_of()),
    {
        proof {
            use_type_invariant(self);
        }
        &self.0
    }

    /// The name with trailing spaces trimmed.
    pub fn as_str(&self) -> (s: &str)
        ensures
            s@ == ascii_chars(trim_trailing_spaces(self.bytes_of())),
    {
        proof {
            use_type_invariant(self);
        }
        let mut len: usize = 12;
        assert(self.0@.take(12) =~= self.0@);
        while len > 0 && self.0[len - 1] == 32
            invariant
                len <= 12,
                trim_trailing_spaces(self.0@) == trim_trailing_spaces(self.0@.take(len as int)),
            decreases len,
        {
            assert(self.0@.take(len as int).drop_last() =~= self.0@.take(len - 1));
            len = len - 1;
        }
        assert(trim_trailing_spaces(self.0@.take(len as int)) == self.0@.take(len as int));
        let bytes = vstd::slice::slice_subrange(self.0.as_slice(), 0, len);
        assert forall|i: int| 0 <= i < bytes@.len() implies #[trigger] bytes@[i] < 128 by {
            assert(bytes@[i] == self.0@[i]);
            assert(is_name_byte(self.0@[i]));
        }
        ascii_str(bytes)
    }

    /// The name as an owned string, with trailing spaces trimmed.
    pub fn to_string(&self) -> (s: String)
        ensures
            s@ == ascii_chars(trim_trailing_spaces(self.bytes_of())),
    {
        String::from_str(self.as_str())
    }
}

impl std::str::FromStr for ProgramName {
    type Err = Error;

    /// The same as [`ProgramName::from_string`].
    fn from_str(s: &str) -> (r: Result<Self, Error>)
        ensures
            match first_invalid_name_byte(padded_name(s.spec_bytes())) {
                Some(b) => r == Err::<Self, Error>(Error::Sysex(SysexError::InvalidProgramNameChar(b))),
                None => r matches Ok(n) && n.bytes_of() == padded_name(s.spec_bytes()),
            },
    {
        Self::from_string(s)
    }
}

impl PartialEq for ProgramName {
    /// Two names are equal when their 12 bytes are.
    fn eq(&self, other: &Self) -> (r: bool) {
        let mut i: usize = 0;
        while i < 12
            invariant
                i <= 12,
                forall|j: int| 0 <= j < i ==> #[trigger] self.0@[j] == other.0@[j],
            decreases 12 - i,
        {
            if self.0[i] != other.0[i] {
                return false;
            }
            i = i + 1;
        }
        proof {
            assert(self.0@ =~= other.0@);
            Self::lemma_bytes_determine(*self, *other);
        }
        true
    }
}

impl vstd::std_specs::cmp::PartialEqSpecImpl for ProgramName {
    open spec fn obeys_eq_spec() -> bool {
        true
    }

    open spec fn eq_spec(&self, other: &ProgramName) -> bool {
        *self == *other
    }
}

impl Default for ProgramName {
    /// Twelve spaces.
    fn default() -> (n: Self)
        ensures
            n.bytes_of() == Seq::new(12, |i: int| 32u8),
    {
        let n = ProgramName([32u8; 12]);
        assert(n.0@ =~= Seq::new(12, |i: int| 32u8));
        n
    }
}

// ---------------------------------------------------------------------------
// SynthParams
// ---------------------------------------------------------------------------

/// Synth parameters from the first 156 bytes of a program blob.
#[derive(Debug, Clone)]
pub struct SynthParams {
    /// Program name (12 characters).
    pub name: ProgramName,
    /// Octave shift: 0 = -2, 1 = -1, 2 = 0, 3 = +1, 4 = +2.
    pub octave: u8,
    /// Portamento time (0--127).
    pub portamento: u8,
    /// Key trigger on/off.
    pub key_trig: bool,
    /// Voice mode depth (10-bit).
    pub voice_mode_depth: u16,
    /// Voice mode type, raw 1-based value (1--4).
    pub voice_mode_type: u8,
    /// VCO 1 waveform.
    pub vco1_wave: VcoWave,
    /// VCO 1 octave.
    pub vco1_octave: VcoOctave,
    /// VCO 1 pitch (10-bit).
    pub vco1_pitch: u16,
    /// VCO 1 shape (10-bit).
    pub vco1_shape: u16,
    /// VCO 2 waveform.
    pub vco2_wave: VcoWave,
    /// VCO 2 octave.
    pub vco2_octave: VcoOctave,
    /// VCO 2 pitch (10-bit).
    pub vco2_pitch: u16,
    /// VCO 2 shape (10-bit).
    pub vco2_shape: u16,
    /// Oscillator sync on/off; the blob stores 0 for on and 1 for off.
    pub sync: bool,
    /// Ring modulation on/off; the blob stores 0 for on and 1 for off.
    pub ring: bool,
    /// Cross-modulation depth (10-bit).
    pub cross_mod_depth: u16,
    /// Multi-engine oscillator type.
    pub multi_type: MultiType,
    /// Multi-engine noise type.
    pub select_noise: MultiSelectNoise,
    /// Multi-engine VPM type (0--15).
    pub select_vpm: u8,
    /// Multi-engine user oscillator slot (0--15).
    pub select_user: u8,
    /// Multi-engine noise shape (10-bit).
    pub shape_noise: u16,
    /// Multi-engine VPM shape (10-bit).
    pub shape_vpm: u16,
    /// Multi-engine user shape (10-bit).
    pub shape_user: u16,
    /// Multi-engine noise shift-shape (10-bit).
    pub shift_shape_noise: u16,
    /// Multi-engine VPM shift-shape (10-bit).
    pub shift_shape_vpm: u16,
    /// Multi-engine user shift-shape (10-bit).
    pub shift_shape_user: u16,
    /// VCO 1 level (10-bit).
    pub vco1_level: u16,
    /// VCO 2 level (10-bit).
    pub vco2_level: u16,
    /// Multi-engine level (10-bit).
    pub multi_level: u16,
    /// Filter cutoff (10-bit).
    pub cutoff: u16,
    /// Filter resonance (10-bit).
    pub resonance: u16,
    /// Cutoff drive amount.
    pub cutoff_drive: CutoffDrive,
    /// Cutoff key-tracking amount.
    pub cutoff_keytrack: CutoffKeytrack,
    /// Amp EG attack (10-bit).
    pub amp_eg_attack: u16,
    /// Amp EG decay (10-bit).
    pub amp_eg_decay: u16,
    /// Amp EG sustain (10-bit).
    pub amp_eg_sustain: u16,
    /// Amp EG release (10-bit).
    pub amp_eg_release: u16,
    /// EG attack (10-bit).
    pub eg_attack: u16,
    /// EG decay (10-bit).
    pub eg_decay: u16,
    /// EG intensity (10-bit).
    pub eg_int: u16,
    /// EG target.
    pub eg_target: EgTarget,
    /// LFO waveform.
    pub lfo_wave: LfoWave,
    /// LFO mode.
    pub lfo_mode: LfoMode,
    /// LFO rate (10-bit).
    pub lfo_rate: u16,
    /// LFO intensity (10-bit).
    pub lfo_int: u16,
    /// LFO target.
    pub lfo_target: LfoTarget,
    /// Mod-FX on/off.
    pub mod_fx_on: bool,
    /// Mod-FX type, raw 1-based value (1--5).
    pub mod_fx_type: u8,
    /// Mod-FX chorus sub-type (0--7).
    pub mod_fx_chorus: u8,
    /// Mod-FX ensemble sub-type (0--2).
    pub mod_fx_ensemble: u8,
    /// Mod-FX phaser sub-type (0--7).
    pub mod_fx_phaser: u8,
    /// Mod-FX flanger sub-type (0--7).
    pub mod_fx_flanger: u8,
    /// Mod-FX user sub-type (0--15).
    pub mod_fx_user: u8,
    /// Mod-FX time (10-bit).
    pub mod_fx_time: u16,
    /// Mod-FX depth (10-bit).
    pub mod_fx_depth: u16,
    /// Delay on/off.
    pub delay_on: bool,
    /// Delay sub-type.
    pub delay_sub_type: DelaySubType,
    /// Delay time (10-bit).
    pub delay_time: u16,
    /// Delay depth (10-bit).
    pub delay_depth: u16,
    /// Reverb on/off.
    pub reverb_on: bool,
    /// Reverb sub-type.
    pub reverb_sub_type: ReverbSubType,
    /// Reverb time (10-bit).
    pub reverb_time: u16,
    /// Reverb depth (10-bit).
    pub reverb_depth: u16,
    /// Pitch bend range up (0--12 semitones).
    pub bend_range_plus: u8,
    /// Pitch bend range down (0--12 semitones).
    pub bend_range_minus: u8,
    /// Joystick assign, positive direction.
    pub joystick_assign_plus: ModAssignTarget,
    /// Joystick range, positive direction (0--200).
    pub joystick_range_plus: u8,
    /// Joystick assign, negative direction.
    pub joystick_assign_minus: ModAssignTarget,
    /// Joystick range, negative direction (0--200).
    pub joystick_range_minus: u8,
    /// CV input mode.
    pub cv_in_mode: CvInMode,
    /// CV input 1 assign target.
    pub cv_in1_assign: ModAssignTarget,
    /// CV input 1 range (0--200).
    pub cv_in1_range: u8,
    /// CV input 2 assign target.
    pub cv_in2_assign: ModAssignTarget,
    /// CV input 2 range (0--200).
    pub cv_in2_range: u8,
    /// Micro-tuning selection, raw byte.
    pub micro_tuning: u8,
    /// Scale key (0--24 for -12..+12).
    pub scale_key: u8,
    /// Program tuning (0--100 for -50..+50 cents).
    pub program_tuning: u8,
    /// LFO key sync on/off.
    pub lfo_key_sync: bool,
    /// LFO voice sync on/off.
    pub lfo_voice_sync: bool,
    /// LFO target oscillator.
    pub lfo_target_osc: LfoTargetOsc,
    /// Cutoff velocity sensitivity (0--127).
    pub cutoff_velocity: u8,
    /// Amp velocity sensitivity (0--127).
    pub amp_velocity: u8,
    /// Multi-engine octave.
    pub multi_octave: VcoOctave,
    /// Multi-engine routing.
    pub multi_routing: MultiRouting,
    /// EG legato on/off.
    pub eg_legato: bool,
    /// Portamento mode.
    pub portamento_mode: PortamentoMode,
    /// Portamento BPM sync on/off.
    pub portamento_bpm_sync: bool,
    /// Program level (12--132 for -18dB..+6dB).
    pub program_level: u8,
    /// VPM parameter 1 (0--200).
    pub vpm_param1: u8,
    /// VPM parameter 2 (0--200).
    pub vpm_param2: u8,
    /// VPM parameter 3 (0--200).
    pub vpm_param3: u8,
    /// VPM parameter 4 (0--200).
    pub vpm_param4: u8,
    /// VPM parameter 5 (0--200).
    pub vpm_param5: u8,
    /// VPM parameter 6 (0--200).
    pub vpm_param6: u8,
    /// User parameter 1 (0--200).
    pub user_param1: u8,
    /// User parameter 2 (0--200).
    pub user_param2: u8,
    /// User parameter 3 (0--200).
    pub user_param3: u8,
    /// User parameter 4 (0--200).
    pub user_param4: u8,
    /// User parameter 5 (0--200).
    pub user_param5: u8,
    /// User parameter 6 (0--200).
    pub user_param6: u8,
    /// User parameter 5 display type.
    pub user_param5_type: UserParamType,
    /// User parameter 6 display type.
    pub user_param6_type: UserParamType,
    /// User parameter 1 display type.
    pub user_param1_type: UserParamType,
    /// User parameter 2 display type.
    pub user_param2_type: UserParamType,
    /// User parameter 3 display type.
    pub user_param3_type: UserParamType,
    /// User parameter 4 display type.
    pub user_param4_type: UserParamType,
    /// Program transpose (1--25 for -12..+12).
    pub program_transpose: u8,
    /// Delay dry/wet (10-bit).
    pub delay_dry_wet: u16,
    /// Reverb dry/wet (10-bit).
    pub reverb_dry_wet: u16,
    /// MIDI aftertouch assign target.
    pub midi_after_touch_assign: ModAssignTarget,
}

/// The byte that stores the switch `on` over the base byte `base`: the base
/// byte when it already reads as `on`, else 1 for on and 0 for off.
pub open spec fn switch_over(base: u8, on: bool) -> u8 {
    if (base != 0) == on {
        base
    } else if on {
        1
    } else {
        0
    }
}

/// The byte that stores the inverted switch `on` over `base`: the base byte
/// when it already reads as `on`, else 0 for on and 1 for off.
pub open spec fn inverted_switch_over(base: u8, on: bool) -> u8 {
    if (base == 0) == on {
        base
    } else if on {
        0
    } else {
        1
    }
}

/// The byte 148 over `base`: the upper 4 bits of `base`, the display type
/// of user parameter 5 in bits 0--1 and of parameter 6 in bits 2--3.
pub open spec fn packed_param_types_5_6(base: u8, t5: u8, t6: u8) -> u8 {
    (base & 0xF0) | (t5 & 0x03) | ((t6 & 0x03) << 2u8)
}

/// The byte 149: the display types of user parameters 1--4, two bits each
/// from bit 0 up.
pub open spec fn packed_param_types_1_4(t1: u8, t2: u8, t3: u8, t4: u8) -> u8 {
    (t1 & 0x03) | ((t2 & 0x03) << 2u8) | ((t3 & 0x03) << 4u8) | ((t4 & 0x03) << 6u8)
}

/// The magic bytes `PROG`.
pub open spec fn prog_magic() -> Seq<u8> {
    seq![0x50u8, 0x52u8, 0x4Fu8, 0x47u8]
}

/// The first check that the synth block `b` fails, if any: its length, its
/// magic, its name, then each stepped field in blob order.
pub open spec fn synth_fault(b: Seq<u8>) -> Option<Error> {
    if b.len() < 156 {
        Some(Error::Sysex(SysexError::PayloadTooShort { expected: 156, actual: b.len() as usize }))
    } else if b.subrange(0, 4) != prog_magic() {
        Some(Error::Sysex(SysexError::InvalidMagic { expected: [0x50u8, 0x52u8, 0x4Fu8, 0x47u8], actual: [b[0], b[1], b[2], b[3]] }))
    } else if let Some(c) = first_invalid_name_byte(b.subrange(4, 16)) {
        Some(Error::Sysex(SysexError::InvalidProgramNameChar(c)))
    } else if let Err(e) = VcoWave::spec_from_program_value(b[22]) {
        Some(e)
    } else if let Err(e) = VcoOctave::spec_from_program_value(b[23]) {
        Some(e)
    } else if let Err(e) = VcoWave::spec_from_program_value(b[28]) {
        Some(e)
    } else if let Err(e) = VcoOctave::spec_from_program_value(b[29]) {
        Some(e)
    } else if let Err(e) = MultiType::spec_from_program_value(b[38]) {
        Some(e)
    } else if let Err(e) = MultiSelectNoise::spec_from_program_value(b[39]) {
        Some(e)
    } else if let Err(e) = CutoffDrive::spec_from_program_value(b[64]) {
        Some(e)
    } else if let Err(e) = CutoffKeytrack::spec_from_program_value(b[65]) {
        Some(e)
    } else if let Err(e) = EgTarget::spec_from_program_value(b[80]) {
        Some(e)
    } else if let Err(e) = LfoWave::spec_from_program_value(b[81]) {
        Some(e)
    } else if let Err(e) = LfoMode::spec_from_program_value(b[82]) {
        Some(e)
    } else if let Err(e) = LfoTarget::spec_from_program_value(b[87]) {
        Some(e)
    } else if let Err(e) = DelaySubType::spec_from_program_value(b[100]) {
        Some(e)
    } else if let Err(e) = ReverbSubType::spec_from_program_value(b[106]) {
        Some(e)
    } else if let Err(e) = ModAssignTarget::spec_from_program_value(b[113]) {
        Some(e)
    } else if let Err(e) = ModAssignTarget::spec_from_program_value(b[115]) {
        Some(e)
    } else if let Err(e) = CvInMode::spec_from_program_value(b[117]) {
        Some(e)
    } else if let Err(e) = ModAssignTarget::spec_from_program_value(b[118]) {
        Some(e)
    } else if let Err(e) = ModAssignTarget::spec_from_program_value(b[120]) {
        Some(e)
    } else if let Err(e) = LfoTargetOsc::spec_from_program_value(b[127]) {
        Some(e)
    } else if let Err(e) = VcoOctave::spec_from_program_value(b[130]) {
        Some(e)
    } else if let Err(e) = MultiRouting::spec_from_program_value(b[131]) {
        Some(e)
    } else if let Err(e) = PortamentoMode::spec_from_program_value(b[133]) {
        Some(e)
    } else if let Err(e) = UserParamType::spec_from_program_value(b[148] & 0x03) {
        Some(e)
    } else if let Err(e) = UserParamType::spec_from_program_value((b[148] >> 2u8) & 0x03) {
        Some(e)
    } else if let Err(e) = UserParamType::spec_from_program_value(b[149] & 0x03) {
        Some(e)
    } else if let Err(e) = UserParamType::spec_from_program_value((b[149] >> 2u8) & 0x03) {
        Some(e)
    } else if let Err(e) = UserParamType::spec_from_program_value((b[149] >> 4u8) & 0x03) {
        Some(e)
    } else if let Err(e) = UserParamType::spec_from_program_value((b[149] >> 6u8) & 0x03) {
        Some(e)
    } else if let Err(e) = ModAssignTarget::spec_from_program_value(b[155]) {
        Some(e)
    } else {
        None
    }
}

/// Part 1 of [`synth_fields_match`].
pub open spec fn synth_fields_match_1(b: Seq<u8>, p: SynthParams) -> bool {
    &&& p.name.bytes_of() == b.subrange(4, 16)
    &&& p.octave == b[16]
    &&& p.portamento == b[17]
    &&& p.key_trig == (b[18] != 0)
    &&& p.voice_mode_depth == ten_bit_value(b[19], b[20])
    &&& p.voice_mode_type == b[21]
    &&& VcoWave::spec_from_program_value(b[22]) == Ok::<VcoWave, Error>(p.vco1_wave)
    &&& VcoOctave::spec_from_program_value(b[23]) == Ok::<VcoOctave, Error>(p.vco1_octave)
    &&& p.vco1_pitch == ten_bit_value(b[24], b[25])
    &&& p.vco1_shape == ten_bit_value(b[26], b[27])
    &&& VcoWave::spec_from_program_value(b[28]) == Ok::<VcoWave, Error>(p.vco2_wave)
    &&& VcoOctave::spec_from_program_value(b[29]) == Ok::<VcoOctave, Error>(p.vco2_octave)
    &&& p.vco2_pitch == ten_bit_value(b[30], b[31])
    &&& p.vco2_shape == ten_bit_value(b[32], b[33])
    &&& p.sync == (b[34] == 0)
    &&& p.ring == (b[35] == 0)
    &&& p.cross_mod_depth == ten_bit_value(b[36], b[37])
    &&& MultiType::spec_from_program_value(b[38]) == Ok::<MultiType, Error>(p.multi_type)
    &&& MultiSelectNoise::spec_from_program_value(b[39]) == Ok::<MultiSelectNoise, Error>(p.select_noise)
    &&& p.select_vpm == b[40]
    &&& p.select_user == b[41]
    &&& p.shape_noise == ten_bit_value(b[42], b[43])
    &&& p.shape_vpm == ten_bit_value(b[44], b[45])
    &&& p.shape_user == ten_bit_value(b[46], b[47])
    &&& p.shift_shape_noise == ten_bit_value(b[48], b[49])
    &&& p.shift_shape_vpm == ten_bit_value(b[50], b[51])
    &&& p.shift_shape_user == ten_bit_value(b[52], b[53])
    &&& p.vco1_level == ten_bit_value(b[54], b[55])
    &&& p.vco2_level == ten_bit_value(b[56], b[57])
    &&& p.multi_level == ten_bit_value(b[58], b[59])
}

/// Part 2 of [`synth_fields_match`].
pub open spec fn synth_fields_match_2(b: Seq<u8>, p: SynthParams) -> bool {
    &&& p.cutoff == ten_bit_value(b[60], b[61])
    &&& p.resonance == ten_bit_value(b[62], b[63])
    &&& CutoffDrive::spec_from_program_value(b[64]) == Ok::<CutoffDrive, Error>(p.cutoff_drive)
    &&& CutoffKeytrack::spec_from_program_value(b[65]) == Ok::<CutoffKeytrack, Error>(p.cutoff_keytrack)
    &&& p.amp_eg_attack == ten_bit_value(b[66], b[67])
    &&& p.amp_eg_decay == ten_bit_value(b[68], b[69])
    &&& p.amp_eg_sustain == ten_bit_value(b[70], b[71])
    &&& p.amp_eg_release == ten_bit_value(b[72], b[73])
    &&& p.eg_attack == ten_bit_value(b[74], b[75])
    &&& p.eg_decay == ten_bit_value(b[76], b[77])
    &&& p.eg_int == ten_bit_value(b[78], b[79])
    &&& EgTarget::spec_from_program_value(b[80]) == Ok::<EgTarget, Error>(p.eg_target)
    &&& LfoWave::spec_from_program_value(b[81]) == Ok::<LfoWave, Error>(p.lfo_wave)
    &&& LfoMode::spec_from_program_value(b[82]) == Ok::<LfoMode, Error>(p.lfo_mode)
    &&& p.lfo_rate == ten_bit_value(b[83], b[84])
    &&& p.lfo_int == ten_bit_value(b[85], b[86])
    &&& LfoTarget::spec_from_program_value(b[87]) == Ok::<LfoTarget, Error>(p.lfo_target)
    &&& p.mod_fx_on == (b[88] != 0)
    &&& p.mod_fx_type == b[89]
    &&& p.mod_fx_chorus == b[90]
    &&& p.mod_fx_ensemble == b[91]
    &&& p.mod_fx_phaser == b[92]
    &&& p.mod_fx_flanger == b[93]
    &&& p.mod_fx_user == b[94]
    &&& p.mod_fx_time == ten_bit_value(b[95], b[96])
    &&& p.mod_fx_depth == ten_bit_value(b[97], b[98])
    &&& p.delay_on == (b[99] != 0)
    &&& DelaySubType::spec_from_program_value(b[100]) == Ok::<DelaySubType, Error>(p.delay_sub_type)
    &&& p.delay_time == ten_bit_value(b[101], b[102])
    &&& p.delay_depth == ten_bit_value(b[103], b[104])
}

/// Part 3 of [`synth_fields_match`].
pub open spec fn synth_fields_match_3(b: Seq<u8>, p: SynthParams) -> bool {
    &&& p.reverb_on == (b[105] != 0)
    &&& ReverbSubType::spec_from_program_value(b[106]) == Ok::<ReverbSubType, Error>(p.reverb_sub_type)
    &&& p.reverb_time == ten_bit_value(b[107], b[108])
    &&& p.reverb_depth == ten_bit_value(b[109], b[110])
    &&& p.bend_range_plus == b[111]
    &&& p.bend_range_minus == b[112]
    &&& ModAssignTarget::spec_from_program_value(b[113]) == Ok::<ModAssignTarget, Error>(p.joystick_assign_plus)
    &&& p.joystick_range_plus == b[114]
    &&& ModAssignTarget::spec_from_program_value(b[115]) == Ok::<ModAssignTarget, Error>(p.joystick_assign_minus)
    &&& p.joystick_range_minus == b[116]
    &&& CvInMode::spec_from_program_value(b[117]) == Ok::<CvInMode, Error>(p.cv_in_mode)
    &&& ModAssignTarget::spec_from_program_value(b[118]) == Ok::<ModAssignTarget, Error>(p.cv_in1_assign)
    &&& p.cv_in1_range == b[119]
    &&& ModAssignTarget::spec_from_program_value(b[120]) == Ok::<ModAssignTarget, Error>(p.cv_in2_assign)
    &&& p.cv_in2_range == b[121]
    &&& p.micro_tuning == b[122]
    &&& p.scale_key == b[123]
    &&& p.program_tuning == b[124]
    &&& p.lfo_key_sync == (b[125] != 0)
    &&& p.lfo_voice_sync == (b[126] != 0)
    &&& LfoTargetOsc::spec_from_program_value(b[127]) == Ok::<LfoTargetOsc, Error>(p.lfo_target_osc)
    &&& p.cutoff_velocity == b[128]
    &&& p.amp_velocity == b[129]
    &&& VcoOctave::spec_from_program_value(b[130]) == Ok::<VcoOctave, Error>(p.multi_octave)
    &&& MultiRouting::spec_from_program_value(b[131]) == Ok::<MultiRouting, Error>(p.multi_routing)
    &&& p.eg_legato == (b[132] != 0)
    &&& PortamentoMode::spec_from_program_value(b[133]) == Ok::<PortamentoMode, Error>(p.portamento_mode)
    &&& p.portamento_bpm_sync == (b[134] != 0)
    &&& p.program_level == b[135]
    &&& p.vpm_param1 == b[136]
}

/// Part 4 of [`synth_fields_match`].
pub open spec fn synth_fields_match_4(b: Seq<u8>, p: SynthParams) -> bool {
    &&& p.vpm_param2 == b[137]
    &&& p.vpm_param3 == b[138]
    &&& p.vpm_param4 == b[139]
    &&& p.vpm_param5 == b[140]
    &&& p.vpm_param6 == b[141]
    &&& p.user_param1 == b[142]
    &&& p.user_param2 == b[143]
    &&& p.user_param3 == b[144]
    &&& p.user_param4 == b[145]
    &&& p.user_param5 == b[146]
    &&& p.user_param6 == b[147]
    &&& UserParamType::spec_from_program_value(b[148] & 0x03) == Ok::<UserParamType, Error>(p.user_param5_type)
    &&& UserParamType::spec_from_program_value((b[148] >> 2u8) & 0x03) == Ok::<UserParamType, Error>(p.user_param6_type)
    &&& UserParamType::spec_from_program_value(b[149] & 0x03) == Ok::<UserParamType, Error>(p.user_param1_type)
    &&& UserParamType::spec_from_program_value((b[149] >> 2u8) & 0x03) == Ok::<UserParamType, Error>(p.user_param2_type)
    &&& UserParamType::spec_from_program_value((b[149] >> 4u8) & 0x03) == Ok::<UserParamType, Error>(p.user_param3_type)
    &&& UserParamType::spec_from_program_value((b[149] >> 6u8) & 0x03) == Ok::<UserParamType, Error>(p.user_param4_type)
    &&& p.program_transpose == b[150]
    &&& p.delay_dry_wet == ten_bit_value(b[151], b[152])
    &&& p.reverb_dry_wet == ten_bit_value(b[153], b[154])
    &&& ModAssignTarget::spec_from_program_value(b[155]) == Ok::<ModAssignTarget, Error>(p.midi_after_touch_assign)
}

/// Every field of `p` is what the synth block `b` stores.
pub open spec fn synth_fields_match(b: Seq<u8>, p: SynthParams) -> bool {
    &&& synth_fields_match_1(b, p)
    &&& synth_fields_match_2(b, p)
    &&& synth_fields_match_3(b, p)
    &&& synth_fields_match_4(b, p)
}

/// What [`SynthParams::from_bytes`] returns for the block `b`.
pub open spec fn synth_parses_as(b: Seq<u8>, r: Result<SynthParams, Error>) -> bool {
    match r {
        Ok(p) => synth_fault(b) is None && synth_fields_match(b, p),
        Err(e) => synth_fault(b) == Some(e),
    }
}

/// The byte at offset `i` of the block that [`SynthParams::to_bytes_with_base`]
/// writes for `p` over `base`.
#[verifier::opaque]
pub open spec fn synth_byte_at(p: SynthParams, base: Seq<u8>, i: int) -> u8 {
    if i < 4 {
        prog_magic()[i]
    } else if i < 16 {
        p.name.bytes_of()[i - 4]
    } else if i == 16 {
        p.octave
    } else if i == 17 {
        p.portamento
    } else if i == 18 {
        switch_over(base[18], p.key_trig)
    } else if i == 19 {
        ten_bit_low(p.voice_mode_depth)
    } else if i == 20 {
        ten_bit_high(base[20], p.voice_mode_depth)
    } else if i == 21 {
        p.voice_mode_type
    } else if i == 22 {
        p.vco1_wave.spec_program_value()
    } else if i == 23 {
        p.vco1_octave.spec_program_value()
    } else if i == 24 {
        ten_bit_low(p.vco1_pitch)
    } else if i == 25 {
        ten_bit_high(base[25], p.vco1_pitch)
    } else if i == 26 {
        ten_bit_low(p.vco1_shape)
    } else if i == 27 {
        ten_bit_high(base[27], p.vco1_shape)
    } else if i == 28 {
        p.vco2_wave.spec_program_value()
    } else if i == 29 {
        p.vco2_octave.spec_program_value()
    } else if i == 30 {
        ten_bit_low(p.vco2_pitch)
    } else if i == 31 {
        ten_bit_high(base[31], p.vco2_pitch)
    } else if i == 32 {
        ten_bit_low(p.vco2_shape)
    } else if i == 33 {
        ten_bit_high(base[33], p.vco2_shape)
    } else if i == 34 {
        inverted_switch_over(base[34], p.sync)
    } else if i == 35 {
        inverted_switch_over(base[35], p.ring)
    } else if i == 36 {
        ten_bit_low(p.cross_mod_depth)
    } else if i == 37 {
        ten_bit_high(base[37], p.cross_mod_depth)
    } else if i == 38 {
        p.multi_type.spec_program_value()
    } else if i == 39 {
        p.select_noise.spec_program_value()
    } else if i == 40 {
        p.select_vpm
    } else if i == 41 {
        p.select_user
    } else if i == 42 {
        ten_bit_low(p.shape_noise)
    } else if i == 43 {
        ten_bit_high(base[43], p.shape_noise)
    } else if i == 44 {
        ten_bit_low(p.shape_vpm)
    } else if i == 45 {
        ten_bit_high(base[45], p.shape_vpm)
    } else if i == 46 {
        ten_bit_low(p.shape_user)
    } else if i == 47 {
        ten_bit_high(base[47], p.shape_user)
    } else if i == 48 {
        ten_bit_low(p.shift_shape_noise)
    } else if i == 49 {
        ten_bit_high(base[49], p.shift_shape_noise)
    } else if i == 50 {
        ten_bit_low(p.shift_shape_vpm)
    } else if i == 51 {
        ten_bit_high(base[51], p.shift_shape_vpm)
    } else if i == 52 {
        ten_bit_low(p.shift_shape_user)
    } else if i == 53 {
        ten_bit_high(base[53], p.shift_shape_user)
    } else if i == 54 {
        ten_bit_low(p.vco1_level)
    } else if i == 55 {
        ten_bit_high(base[55], p.vco1_level)
    } else if i == 56 {
        ten_bit_low(p.vco2_level)
    } else if i == 57 {
        ten_bit_high(base[57], p.vco2_level)
    } else if i == 58 {
        ten_bit_low(p.multi_level)
    } else if i == 59 {
        ten_bit_high(base[59], p.multi_level)
    } else if i == 60 {
        ten_bit_low(p.cutoff)
    } else if i == 61 {
        ten_bit_high(base[61], p.cutoff)
    } else if i == 62 {
        ten_bit_low(p.resonance)
    } else if i == 63 {
        ten_bit_high(base[63], p.resonance)
    } else if i == 64 {
        p.cutoff_drive.spec_program_value()
    } else if i == 65 {
        p.cutoff_keytrack.spec_program_value()
    } else if i == 66 {
        ten_bit_low(p.amp_eg_attack)
    } else if i == 67 {
        ten_bit_high(base[67], p.amp_eg_attack)
    } else if i == 68 {
        ten_bit_low(p.amp_eg_decay)
    } else if i == 69 {
        ten_bit_high(base[69], p.amp_eg_decay)
    } else if i == 70 {
        ten_bit_low(p.amp_eg_sustain)
    } else if i == 71 {
        ten_bit_high(base[71], p.amp_eg_sustain)
    } else if i == 72 {
        ten_bit_low(p.amp_eg_release)
    } else if i == 73 {
        ten_bit_high(base[73], p.amp_eg_release)
    } else if i == 74 {
        ten_bit_low(p.eg_attack)
    } else if i == 75 {
        ten_bit_high(base[75], p.eg_attack)
    } else if i == 76 {
        ten_bit_low(p.eg_decay)
    } else if i == 77 {
        ten_bit_high(base[77], p.eg_decay)
    } else if i == 78 {
        ten_bit_low(p.eg_int)
    } else if i == 79 {
        ten_bit_high(base[79], p.eg_int)
    } else if i == 80 {
        p.eg_target.spec_program_value()
    } else if i == 81 {
        p.lfo_wave.spec_program_value()
    } else if i == 82 {
        p.lfo_mode.spec_program_value()
    } else if i == 83 {
        ten_bit_low(p.lfo_rate)
    } else if i == 84 {
        ten_bit_high(base[84], p.lfo_rate)
    } else if i == 85 {
        ten_bit_low(p.lfo_int)
    } else if i == 86 {
        ten_bit_high(base[86], p.lfo_int)
    } else if i == 87 {
        p.lfo_target.spec_program_value()
    } else if i == 88 {
        switch_over(base[88], p.mod_fx_on)
    } else if i == 89 {
        p.mod_fx_type
    } else if i == 90 {
        p.mod_fx_chorus
    } else if i == 91 {
        p.mod_fx_ensemble
    } else if i == 92 {
        p.mod_fx_phaser
    } else if i == 93 {
        p.mod_fx_flanger
    } else if i == 94 {
        p.mod_fx_user
    } else if i == 95 {
        ten_bit_low(p.mod_fx_time)
    } else if i == 96 {
        ten_bit_high(base[96], p.mod_fx_time)
    } else if i == 97 {
        ten_bit_low(p.mod_fx_depth)
    } else if i == 98 {
        ten_bit_high(base[98], p.mod_fx_depth)
    } else if i == 99 {
        switch_over(base[99], p.delay_on)
    } else if i == 100 {
        p.delay_sub_type.spec_program_value()
    } else if i == 101 {
        ten_bit_low(p.delay_time)
    } else if i == 102 {
        ten_bit_high(base[102], p.delay_time)
    } else if i == 103 {
        ten_bit_low(p.delay_depth)
    } else if i == 104 {
        ten_bit_high(base[104], p.delay_depth)
    } else if i == 105 {
        switch_over(base[105], p.reverb_on)
    } else if i == 106 {
        p.reverb_sub_type.spec_program_value()
    } else if i == 107 {
        ten_bit_low(p.reverb_time)
    } else if i == 108 {
        ten_bit_high(base[108], p.reverb_time)
    } else if i == 109 {
        ten_bit_low(p.reverb_depth)
    } else if i == 110 {
        ten_bit_high(base[110], p.reverb_depth)
    } else if i == 111 {
        p.bend_range_plus
    } else if i == 112 {
        p.bend_range_minus
    } else if i == 113 {
        p.joystick_assign_plus.spec_program_value()
    } else if i == 114 {
        p.joystick_range_plus
    } else if i == 115 {
        p.joystick_assign_minus.spec_program_value()
    } else if i == 116 {
        p.joystick_range_minus
    } else if i == 117 {
        p.cv_in_mode.spec_program_value()
    } else if i == 118 {
        p.cv_in1_assign.spec_program_value()
    } else if i == 119 {
        p.cv_in1_range
    } else if i == 120 {
        p.cv_in2_assign.spec_program_value()
    } else if i == 121 {
        p.cv_in2_range
    } else if i == 122 {
        p.micro_tuning
    } else if i == 123 {
        p.scale_key
    } else if i == 124 {
        p.program_tuning
    } else if i == 125 {
        switch_over(base[125], p.lfo_key_sync)
    } else if i == 126 {
        switch_over(base[126], p.lfo_voice_sync)
    } else if i == 127 {
        p.lfo_target_osc.spec_program_value()
    } else if i == 128 {
        p.cutoff_velocity
    } else if i == 129 {
        p.amp_velocity
    } else if i == 130 {
        p.multi_octave.spec_program_value()
    } else if i == 131 {
        p.multi_routing.spec_program_value()
    } else if i == 132 {
        switch_over(base[132], p.eg_legato)
    } else if i == 133 {
        p.portamento_mode.spec_program_value()
    } else if i == 134 {
        switch_over(base[134], p.portamento_bpm_sync)
    } else if i == 135 {
        p.program_level
    } else if i == 136 {
        p.vpm_param1
    } else if i == 137 {
        p.vpm_param2
    } else if i == 138 {
        p.vpm_param3
    } else if i == 139 {
        p.vpm_param4
    } else if i == 140 {
        p.vpm_param5
    } else if i == 141 {
        p.vpm_param6
    } else if i == 142 {
        p.user_param1
    } else if i == 143 {
        p.user_param2
    } else if i == 144 {
        p.user_param3
    } else if i == 145 {
        p.user_param4
    } else if i == 146 {
        p.user_param5
    } else if i == 147 {
        p.user_param6
    } else if i == 148 {
        packed_param_types_5_6(base[148], p.user_param5_type.spec_program_value(), p.user_param6_type.spec_program_value())
    } else if i == 149 {
        packed_param_types_1_4(p.user_param1_type.spec_program_value(), p.user_param2_type.spec_program_value(), p.user_param3_type.spec_program_value(), p.user_param4_type.spec_program_value())
    } else if i == 150 {
        p.program_transpose
    } else if i == 151 {
        ten_bit_low(p.delay_dry_wet)
    } else if i == 152 {
        ten_bit_high(base[152], p.delay_dry_wet)
    } else if i == 153 {
        ten_bit_low(p.reverb_dry_wet)
    } else if i == 154 {
        ten_bit_high(base[154], p.reverb_dry_wet)
    } else {
        p.midi_after_touch_assign.spec_program_value()
    }
}

/// The 156-byte block that [`SynthParams::to_bytes_with_base`] writes for `p`
/// over `base`.
pub open spec fn synth_bytes(p: SynthParams, base: Seq<u8>) -> Seq<u8> {
    Seq::new(156, |i: int| synth_byte_at(p, base, i))
}

/// The zero block that [`SynthParams::to_bytes`] writes over.
pub open spec fn zero_block() -> Seq<u8> {
    Seq::new(156, |i: int| 0u8)
}

/// Every 10-bit field of `p` is at most 1023 and its name is valid.
pub open spec fn synth_in_range(p: SynthParams) -> bool {
    &&& valid_name(p.name.bytes_of())
    &&& p.voice_mode_depth <= 1023
    &&& p.vco1_pitch <= 1023
    &&& p.vco1_shape <= 1023
    &&& p.vco2_pitch <= 1023
    &&& p.vco2_shape <= 1023
    &&& p.cross_mod_depth <= 1023
    &&& p.shape_noise <= 1023
    &&& p.shape_vpm <= 1023
    &&& p.shape_user <= 1023
    &&& p.shift_shape_noise <= 1023
    &&& p.shift_shape_vpm <= 1023
    &&& p.shift_shape_user <= 1023
    &&& p.vco1_level <= 1023
    &&& p.vco2_level <= 1023
    &&& p.multi_level <= 1023
    &&& p.cutoff <= 1023
    &&& p.resonance <= 1023
    &&& p.amp_eg_attack <= 1023
    &&& p.amp_eg_decay <= 1023
    &&& p.amp_eg_sustain <= 1023
    &&& p.amp_eg_release <= 1023
    &&& p.eg_attack <= 1023
    &&& p.eg_decay <= 1023
    &&& p.eg_int <= 1023
    &&& p.lfo_rate <= 1023
    &&& p.lfo_int <= 1023
    &&& p.mod_fx_time <= 1023
    &&& p.mod_fx_depth <= 1023
    &&& p.delay_time <= 1023
    &&& p.delay_depth <= 1023
    &&& p.reverb_time <= 1023
    &&& p.reverb_depth <= 1023
    &&& p.delay_dry_wet <= 1023
    &&& p.reverb_dry_wet <= 1023
}

/// The byte that stores the switch `on` over `base`.
fn switch_byte_over(base: u8, on: bool) -> (v: u8)
    ensures
        v == switch_over(base, on),
{
    if (base != 0) == on {
        base
    } else if on {
        1
    } else {
        0
    }
}

/// The byte that stores the inverted switch `on` over `base`.
fn inverted_switch_byte_over(base: u8, on: bool) -> (v: u8)
    ensures
        v == inverted_switch_over(base, on),
{
    if (base == 0) == on {
        base
    } else if on {
        0
    } else {
        1
    }
}

impl SynthParams {
    /// Size of the synth parameter block in bytes.
    pub const SIZE: usize = 156;

    /// The magic bytes `PROG` at the start of the blob.
    pub const MAGIC: &'static [u8; 4] = &[0x50, 0x52, 0x4F, 0x47];

    /// The byte at offset `i` of the block over `base`.
    fn byte_at(&self, base: &[u8; 156], i: usize) -> (v: u8)
        requires
            i < 156,
        ensures
            v == synth_byte_at(*self, base@, i as int),
    {
        proof {
            reveal(synth_byte_at);
        }
        if i < 4 {
            let magic: [u8; 4] = [0x50, 0x52, 0x4F, 0x47];
            assert(magic@ =~= prog_magic());
            magic[i]
        } else if i < 16 {
            self.name.as_bytes()[i - 4]
        } else if i == 16 {
            self.octave
        } else if i == 17 {
            self.portamento
        } else if i == 18 {
            switch_byte_over(base[18], self.key_trig)
        } else if i == 19 {
            (self.voice_mode_depth & 0x03FF & 0xFF) as u8
        } else if i == 20 {
            (base[20] & 0xFC) | ((self.voice_mode_depth & 0x03FF) >> 8) as u8
        } else if i == 21 {
            self.voice_mode_type
        } else if i == 22 {
            self.vco1_wave.to_program_value()
        } else if i == 23 {
            self.vco1_octave.to_program_value()
        } else if i == 24 {
            (self.vco1_pitch & 0x03FF & 0xFF) as u8
        } else if i == 25 {
            (base[25] & 0xFC) | ((self.vco1_pitch & 0x03FF) >> 8) as u8
        } else if i == 26 {
            (self.vco1_shape & 0x03FF & 0xFF) as u8
        } else if i == 27 {
            (base[27] & 0xFC) | ((self.vco1_shape & 0x03FF) >> 8) as u8
        } else if i == 28 {
            self.vco2_wave.to_program_value()
        } else if i == 29 {
            self.vco2_octave.to_program_value()
        } else if i == 30 {
            (self.vco2_pitch & 0x03FF & 0xFF) as u8
        } else if i == 31 {
            (base[31] & 0xFC) | ((self.vco2_pitch & 0x03FF) >> 8) as u8
        } else if i == 32 {
            (self.vco2_shape & 0x03FF & 0xFF) as u8
        } else if i == 33 {
            (base[33] & 0xFC) | ((self.vco2_shape & 0x03FF) >> 8) as u8
        } else if i == 34 {
            inverted_switch_byte_over(base[34], self.sync)
        } else if i == 35 {
            inverted_switch_byte_over(base[35], self.ring)
        } else if i == 36 {
            (self.cross_mod_depth & 0x03FF & 0xFF) as u8
        } else if i == 37 {
            (base[37] & 0xFC) | ((self.cross_mod_depth & 0x03FF) >> 8) as u8
        } else if i == 38 {
            self.multi_type.to_program_value()
        } else if i == 39 {
            self.select_noise.to_program_value()
        } else if i == 40 {
            self.select_vpm
        } else if i == 41 {
            self.select_user
        } else if i == 42 {
            (self.shape_noise & 0x03FF & 0xFF) as u8
        } else if i == 43 {
            (base[43] & 0xFC) | ((self.shape_noise & 0x03FF) >> 8) as u8
        } else if i == 44 {
            (self.shape_vpm & 0x03FF & 0xFF) as u8
        } else if i == 45 {
            (base[45] & 0xFC) | ((self.shape_vpm & 0x03FF) >> 8) as u8
        } else if i == 46 {
            (self.shape_user & 0x03FF & 0xFF) as u8
        } else if i == 47 {
            (base[47] & 0xFC) | ((self.shape_user & 0x03FF) >> 8) as u8
        } else if i == 48 {
            (self.shift_shape_noise & 0x03FF & 0xFF) as u8
        } else if i == 49 {
            (base[49] & 0xFC) | ((self.shift_shape_noise & 0x03FF) >> 8) as u8
        } else if i == 50 {
            (self.shift_shape_vpm & 0x03FF & 0xFF) as u8
        } else if i == 51 {
            (base[51] & 0xFC) | ((self.shift_shape_vpm & 0x03FF) >> 8) as u8
        } else if i == 52 {
            (self.shift_shape_user & 0x03FF & 0xFF) as u8
        } else if i == 53 {
            (base[53] & 0xFC) | ((self.shift_shape_user & 0x03FF) >> 8) as u8
        } else if i == 54 {
            (self.vco1_level & 0x03FF & 0xFF) as u8
        } else if i == 55 {
            (base[55] & 0xFC) | ((self.vco1_level & 0x03FF) >> 8) as u8
        } else if i == 56 {
            (self.vco2_level & 0x03FF & 0xFF) as u8
        } else if i == 57 {
            (base[57] & 0xFC) | ((self.vco2_level & 0x03FF) >> 8) as u8
        } else if i == 58 {
            (self.multi_level & 0x03FF & 0xFF) as u8
        } else if i == 59 {
            (base[59] & 0xFC) | ((self.multi_level & 0x03FF) >> 8) as u8
        } else if i == 60 {
            (self.cutoff & 0x03FF & 0xFF) as u8
        } else if i == 61 {
            (base[61] & 0xFC) | ((self.cutoff & 0x03FF) >> 8) as u8
        } else if i == 62 {
            (self.resonance & 0x03FF & 0xFF) as u8
        } else if i == 63 {
            (base[63] & 0xFC) | ((self.resonance & 0x03FF) >> 8) as u8
        } else if i == 64 {
            self.cutoff_drive.to_program_value()
        } else if i == 65 {
            self.cutoff_keytrack.to_program_value()
        } else if i == 66 {
            (self.amp_eg_attack & 0x03FF & 0xFF) as u8
        } else if i == 67 {
            (base[67] & 0xFC) | ((self.amp_eg_attack & 0x03FF) >> 8) as u8
        } else if i == 68 {
            (self.amp_eg_decay & 0x03FF & 0xFF) as u8
        } else if i == 69 {
            (base[69] & 0xFC) | ((self.amp_eg_decay & 0x03FF) >> 8) as u8
        } else if i == 70 {
            (self.amp_eg_sustain & 0x03FF & 0xFF) as u8
        } else if i == 71 {
            (base[71] & 0xFC) | ((self.amp_eg_sustain & 0x03FF) >> 8) as u8
        } else if i == 72 {
            (self.amp_eg_release & 0x03FF & 0xFF) as u8
        } else if i == 73 {
            (base[73] & 0xFC) | ((self.amp_eg_release & 0x03FF) >> 8) as u8
        } else if i == 74 {
            (self.eg_attack & 0x03FF & 0xFF) as u8
        } else if i == 75 {
            (base[75] & 0xFC) | ((self.eg_attack & 0x03FF) >> 8) as u8
        } else if i == 76 {
            (self.eg_decay & 0x03FF & 0xFF) as u8
        } else if i == 77 {
            (base[77] & 0xFC) | ((self.eg_decay & 0x03FF) >> 8) as u8
        } else if i == 78 {
            (self.eg_int & 0x03FF & 0xFF) as u8
        } else if i == 79 {
            (base[79] & 0xFC) | ((self.eg_int & 0x03FF) >> 8) as u8
        } else if i == 80 {
            self.eg_target.to_program_value()
        } else if i == 81 {
            self.lfo_wave.to_program_value()
        } else if i == 82 {
            self.lfo_mode.to_program_value()
        } else if i == 83 {
            (self.lfo_rate & 0x03FF & 0xFF) as u8
        } else if i == 84 {
            (base[84] & 0xFC) | ((self.lfo_rate & 0x03FF) >> 8) as u8
        } else if i == 85 {
            (self.lfo_int & 0x03FF & 0xFF) as u8
        } else if i == 86 {
            (base[86] & 0xFC) | ((self.lfo_int & 0x03FF) >> 8) as u8
        } else if i == 87 {
            self.lfo_target.to_program_value()
        } else if i == 88 {
            switch_byte_over(base[88], self.mod_fx_on)
        } else if i == 89 {
            self.mod_fx_type
        } else if i == 90 {
            self.mod_fx_chorus
        } else if i == 91 {
            self.mod_fx_ensemble
        } else if i == 92 {
            self.mod_fx_phaser
        } else if i == 93 {
            self.mod_fx_flanger
        } else if i == 94 {
            self.mod_fx_user
        } else if i == 95 {
            (self.mod_fx_time & 0x03FF & 0xFF) as u8
        } else if i == 96 {
            (base[96] & 0xFC) | ((self.mod_fx_time & 0x03FF) >> 8) as u8
        } else if i == 97 {
            (self.mod_fx_depth & 0x03FF & 0xFF) as u8
        } else if i == 98 {
            (base[98] & 0xFC) | ((self.mod_fx_depth & 0x03FF) >> 8) as u8
        } else if i == 99 {
            switch_byte_over(base[99], self.delay_on)
        } else if i == 100 {
            self.delay_sub_type.to_program_value()
        } else if i == 101 {
            (self.delay_time & 0x03FF & 0xFF) as u8
        } else if i == 102 {
            (base[102] & 0xFC) | ((self.delay_time & 0x03FF) >> 8) as u8
        } else if i == 103 {
            (self.delay_depth & 0x03FF & 0xFF) as u8
        } else if i == 104 {
            (base[104] & 0xFC) | ((self.delay_depth & 0x03FF) >> 8) as u8
        } else if i == 105 {
            switch_byte_over(base[105], self.reverb_on)
        } else if i == 106 {
            self.reverb_sub_type.to_program_value()
        } else if i == 107 {
            (self.reverb_time & 0x03FF & 0xFF) as u8
        } else if i == 108 {
            (base[108] & 0xFC) | ((self.reverb_time & 0x03FF) >> 8) as u8
        } else if i == 109 {
            (self.reverb_depth & 0x03FF & 0xFF) as u8
        } else if i == 110 {
            (base[110] & 0xFC) | ((self.reverb_depth & 0x03FF) >> 8) as u8
        } else if i == 111 {
            self.bend_range_plus
        } else if i == 112 {
            self.bend_range_minus
        } else if i == 113 {
            self.joystick_assign_plus.to_program_value()
        } else if i == 114 {
            self.joystick_range_plus
        } else if i == 115 {
            self.joystick_assign_minus.to_program_value()
        } else if i == 116 {
            self.joystick_range_minus
        } else if i == 117 {
            self.cv_in_mode.to_program_value()
        } else if i == 118 {
            self.cv_in1_assign.to_program_value()
        } else if i == 119 {
            self.cv_in1_range
        } else if i == 120 {
            self.cv_in2_assign.to_program_value()
        } else if i == 121 {
            self.cv_in2_range
        } else if i == 122 {
            self.micro_tuning
        } else if i == 123 {
            self.scale_key
        } else if i == 124 {
            self.program_tuning
        } else if i == 125 {
            switch_byte_over(base[125], self.lfo_key_sync)
        } else if i == 126 {
            switch_byte_over(base[126], self.lfo_voice_sync)
        } else if i == 127 {
            self.lfo_target_osc.to_program_value()
        } else if i == 128 {
            self.cutoff_velocity
        } else if i == 129 {
            self.amp_velocity
        } else if i == 130 {
            self.multi_octave.to_program_value()
        } else if i == 131 {
            self.multi_routing.to_program_value()
        } else if i == 132 {
            switch_byte_over(base[132], self.eg_legato)
        } else if i == 133 {
            self.portamento_mode.to_program_value()
        } else if i == 134 {
            switch_byte_over(base[134], self.portamento_bpm_sync)
        } else if i == 135 {
            self.program_level
        } else if i == 136 {
            self.vpm_param1
        } else if i == 137 {
            self.vpm_param2
        } else if i == 138 {
            self.vpm_param3
        } else if i == 139 {
            self.vpm_param4
        } else if i == 140 {
            self.vpm_param5
        } else if i == 141 {
            self.vpm_param6
        } else if i == 142 {
            self.user_param1
        } else if i == 143 {
            self.user_param2
        } else if i == 144 {
            self.user_param3
        } else if i == 145 {
            self.user_param4
        } else if i == 146 {
            self.user_param5
        } else if i == 147 {
            self.user_param6
        } else if i == 148 {
            (base[148] & 0xF0) | (self.user_param5_type.to_program_value() & 0x03) | ((self.user_param6_type.to_program_value() & 0x03) << 2)
        } else if i == 149 {
            (self.user_param1_type.to_program_value() & 0x03) | ((self.user_param2_type.to_program_value() & 0x03) << 2) | ((self.user_param3_type.to_program_value() & 0x03) << 4) | ((self.user_param4_type.to_program_value() & 0x03) << 6)
        } else if i == 150 {
            self.program_transpose
        } else if i == 151 {
            (self.delay_dry_wet & 0x03FF & 0xFF) as u8
        } else if i == 152 {
            (base[152] & 0xFC) | ((self.delay_dry_wet & 0x03FF) >> 8) as u8
        } else if i == 153 {
            (self.reverb_dry_wet & 0x03FF & 0xFF) as u8
        } else if i == 154 {
            (base[154] & 0xFC) | ((self.reverb_dry_wet & 0x03FF) >> 8) as u8
        } else {
            self.midi_after_touch_assign.to_program_value()
        }
    }

    /// Serialize the parameters over `base`: every byte and bit of `base`
    /// that no parameter changes is kept, so that writing back parameters
    /// read from a block gives back that block.
    pub fn to_bytes_with_base(&self, base: &[u8; 156]) -> (out: [u8; 156])
        ensures
            out@ == synth_bytes(*self, base@),
    {
        let mut out = [0u8; 156];
        let mut i: usize = 0;
        while i < Self::SIZE
            invariant
                i <= 156,
                forall|j: int| 0 <= j < i ==> #[trigger] out@[j] == synth_byte_at(*self, base@, j),
            decreases 156 - i,
        {
            out[i] = self.byte_at(base, i);
            i = i + 1;
        }
        assert(out@ =~= synth_bytes(*self, base@));
        out
    }

    /// Serialize the parameters to a 156-byte block; switches are written as
    /// 0 or 1 (`sync` and `ring` as 0 for on) and unused bits as zero.
    pub fn to_bytes(&self) -> (out: [u8; 156])
        ensures
            out@ == synth_bytes(*self, zero_block()),
    {
        let base = [0u8; 156];
        assert(base@ =~= zero_block());
        self.to_bytes_with_base(&base)
    }

    /// Parse synth parameters from a byte slice (offsets 0--155); bytes
    /// beyond the block are ignored.
    ///
    /// Fails when the slice is too short, the magic is not `PROG`, the name
    /// holds a byte outside its character set, or a stepped field holds a
    /// value without a variant; the first such fault in blob order is
    /// reported.
    pub fn from_bytes(bytes: &[u8]) -> (r: Result<Self, Error>)
        ensures
            synth_parses_as(bytes@, r),
    {
        if bytes.len() < Self::SIZE {
            return Err(Error::Sysex(SysexError::PayloadTooShort { expected: Self::SIZE, actual: bytes.len() }));
        }
        if bytes[0] != 0x50 || bytes[1] != 0x52 || bytes[2] != 0x4F || bytes[3] != 0x47 {
            return Err(Error::Sysex(SysexError::InvalidMagic {
                expected: [0x50, 0x52, 0x4F, 0x47],
                actual: [bytes[0], bytes[1], bytes[2], bytes[3]],
            }));
        }
        assert(bytes@.subrange(0, 4) =~= prog_magic());
        let mut name_bytes = [0u8; 12];
        let mut i: usize = 0;
        while i < 12
            invariant
                i <= 12,
                bytes@.len() >= 156,
                forall|j: int| 0 <= j < i ==> #[trigger] name_bytes@[j] == bytes@[4 + j],
            decreases 12 - i,
        {
            name_bytes[i] = bytes[4 + i];
            i = i + 1;
        }
        assert(name_bytes@ =~= bytes@.subrange(4, 16));
        let name = ProgramName::new(name_bytes)?;
        let octave = bytes[16];
        let portamento = bytes[17];
        let key_trig = bytes[18] != 0;
        let voice_mode_depth = read_10bit(bytes, 19);
        let voice_mode_type = bytes[21];
        let vco1_wave = VcoWave::from_program_value(bytes[22])?;
        let vco1_octave = VcoOctave::from_program_value(bytes[23])?;
        let vco1_pitch = read_10bit(bytes, 24);
        let vco1_shape = read_10bit(bytes, 26);
        let vco2_wave = VcoWave::from_program_value(bytes[28])?;
        let vco2_octave = VcoOctave::from_program_value(bytes[29])?;
        let vco2_pitch = read_10bit(bytes, 30);
        let vco2_shape = read_10bit(bytes, 32);
        let sync = bytes[34] == 0;
        let ring = bytes[35] == 0;
        let cross_mod_depth = read_10bit(bytes, 36);
        let multi_type = MultiType::from_program_value(bytes[38])?;
        let select_noise = MultiSelectNoise::from_program_value(bytes[39])?;
        let select_vpm = bytes[40];
        let select_user = bytes[41];
        let shape_noise = read_10bit(bytes, 42);
        let shape_vpm = read_10bit(bytes, 44);
        let shape_user = read_10bit(bytes, 46);
        let shift_shape_noise = read_10bit(bytes, 48);
        let shift_shape_vpm = read_10bit(bytes, 50);
        let shift_shape_user = read_10bit(bytes, 52);
        let vco1_level = read_10bit(bytes, 54);
        let vco2_level = read_10bit(bytes, 56);
        let multi_level = read_10bit(bytes, 58);
        let cutoff = read_10bit(bytes, 60);
        let resonance = read_10bit(bytes, 62);
        let cutoff_drive = CutoffDrive::from_program_value(bytes[64])?;
        let cutoff_keytrack = CutoffKeytrack::from_program_value(bytes[65])?;
        let amp_eg_attack = read_10bit(bytes, 66);
        let amp_eg_decay = read_10bit(bytes, 68);
        let amp_eg_sustain = read_10bit(bytes, 70);
        let amp_eg_release = read_10bit(bytes, 72);
        let eg_attack = read_10bit(bytes, 74);
        let eg_decay = read_10bit(bytes, 76);
        let eg_int = read_10bit(bytes, 78);
        let eg_target = EgTarget::from_program_value(bytes[80])?;
        let lfo_wave = LfoWave::from_program_value(bytes[81])?;
        let lfo_mode = LfoMode::from_program_value(bytes[82])?;
        let lfo_rate = read_10bit(bytes, 83);
        let lfo_int = read_10bit(bytes, 85);
        let lfo_target = LfoTarget::from_program_value(bytes[87])?;
        let mod_fx_on = bytes[88] != 0;
        let mod_fx_type = bytes[89];
        let mod_fx_chorus = bytes[90];
        let mod_fx_ensemble = bytes[91];
        let mod_fx_phaser = bytes[92];
        let mod_fx_flanger = bytes[93];
        let mod_fx_user = bytes[94];
        let mod_fx_time = read_10bit(bytes, 95);
        let mod_fx_depth = read_10bit(bytes, 97);
        let delay_on = bytes[99] != 0;
        let delay_sub_type = DelaySubType::from_program_value(bytes[100])?;
        let delay_time = read_10bit(bytes, 101);
        let delay_depth = read_10bit(bytes, 103);
        let reverb_on = bytes[105] != 0;
        let reverb_sub_type = ReverbSubType::from_program_value(bytes[106])?;
        let reverb_time = read_10bit(bytes, 107);
        let reverb_depth = read_10bit(bytes, 109);
        let bend_range_plus = bytes[111];
        let bend_range_minus = bytes[112];
        let joystick_assign_plus = ModAssignTarget::from_program_value(bytes[113])?;
        let joystick_range_plus = bytes[114];
        let joystick_assign_minus = ModAssignTarget::from_program_value(bytes[115])?;
        let joystick_range_minus = bytes[116];
        let cv_in_mode = CvInMode::from_program_value(bytes[117])?;
        let cv_in1_assign = ModAssignTarget::from_program_value(bytes[118])?;
        let cv_in1_range = bytes[119];
        let cv_in2_assign = ModAssignTarget::from_program_value(bytes[120])?;
        let cv_in2_range = bytes[121];
        let micro_tuning = bytes[122];
        let scale_key = bytes[123];
        let program_tuning = bytes[124];
        let lfo_key_sync = bytes[125] != 0;
        let lfo_voice_sync = bytes[126] != 0;
        let lfo_target_osc = LfoTargetOsc::from_program_value(bytes[127])?;
        let cutoff_velocity = bytes[128];
        let amp_velocity = bytes[129];
        let multi_octave = VcoOctave::from_program_value(bytes[130])?;
        let multi_routing = MultiRouting::from_program_value(bytes[131])?;
        let eg_legato = bytes[132] != 0;
        let portamento_mode = PortamentoMode::from_program_value(bytes[133])?;
        let portamento_bpm_sync = bytes[134] != 0;
        let program_level = bytes[135];
        let vpm_param1 = bytes[136];
        let vpm_param2 = bytes[137];
        let vpm_param3 = bytes[138];
        let vpm_param4 = bytes[139];
        let vpm_param5 = bytes[140];
        let vpm_param6 = bytes[141];
        let user_param1 = bytes[142];
        let user_param2 = bytes[143];
        let user_param3 = bytes[144];
        let user_param4 = bytes[145];
        let user_param5 = bytes[146];
        let user_param6 = bytes[147];
        let user_param5_type = UserParamType::from_program_value(bytes[148] & 0x03)?;
        let user_param6_type = UserParamType::from_program_value((bytes[148] >> 2) & 0x03)?;
        let user_param1_type = UserParamType::from_program_value(bytes[149] & 0x03)?;
        let user_param2_type = UserParamType::from_program_value((bytes[149] >> 2) & 0x03)?;
        let user_param3_type = UserParamType::from_program_value((bytes[149] >> 4) & 0x03)?;
        let user_param4_type = UserParamType::from_program_value((bytes[149] >> 6) & 0x03)?;
        let program_transpose = bytes[150];
        let delay_dry_wet = read_10bit(bytes, 151);
        let reverb_dry_wet = read_10bit(bytes, 153);
        let midi_after_touch_assign = ModAssignTarget::from_program_value(bytes[155])?;
        let p = SynthParams {
            name,
            octave,
            portamento,
            key_trig,
            voice_mode_depth,
            voice_mode_type,
            vco1_wave,
            vco1_octave,
            vco1_pitch,
            vco1_shape,
            vco2_wave,
            vco2_octave,
            vco2_pitch,
            vco2_shape,
            sync,
            ring,
            cross_mod_depth,
            multi_type,
            select_noise,
            select_vpm,
            select_user,
            shape_noise,
            shape_vpm,
            shape_user,
            shift_shape_noise,
            shift_shape_vpm,
            shift_shape_user,
            vco1_level,
            vco2_level,
            multi_level,
            cutoff,
            resonance,
            cutoff_drive,
            cutoff_keytrack,
            amp_eg_attack,
            amp_eg_decay,
            amp_eg_sustain,
            amp_eg_release,
            eg_attack,
            eg_decay,
            eg_int,
            eg_target,
            lfo_wave,
            lfo_mode,
            lfo_rate,
            lfo_int,
            lfo_target,
            mod_fx_on,
            mod_fx_type,
            mod_fx_chorus,
            mod_fx_ensemble,
            mod_fx_phaser,
            mod_fx_flanger,
            mod_fx_user,
            mod_fx_time,
            mod_fx_depth,
            delay_on,
            delay_sub_type,
            delay_time,
            delay_depth,
            reverb_on,
            reverb_sub_type,
            reverb_time,
            reverb_depth,
            bend_range_plus,
            bend_range_minus,
            joystick_assign_plus,
            joystick_range_plus,
            joystick_assign_minus,
            joystick_range_minus,
            cv_in_mode,
            cv_in1_assign,
            cv_in1_range,
            cv_in2_assign,
            cv_in2_range,
            micro_tuning,
            scale_key,
            program_tuning,
            lfo_key_sync,
            lfo_voice_sync,
            lfo_target_osc,
            cutoff_velocity,
            amp_velocity,
            multi_octave,
            multi_routing,
            eg_legato,
            portamento_mode,
            portamento_bpm_sync,
            program_level,
            vpm_param1,
            vpm_param2,
            vpm_param3,
            vpm_param4,
            vpm_param5,
            vpm_param6,
            user_param1,
            user_param2,
            user_param3,
            user_param4,
            user_param5,
            user_param6,
            user_param5_type,
            user_param6_type,
            user_param1_type,
            user_param2_type,
            user_param3_type,
            user_param4_type,
            program_transpose,
            delay_dry_wet,
            reverb_dry_wet,
            midi_after_touch_assign,
        };
        assert(synth_fields_match_1(bytes@, p));
        assert(synth_fields_match_2(bytes@, p));
        assert(synth_fields_match_3(bytes@, p));
        assert(synth_fields_match_4(bytes@, p));
        Ok(p)
    }

    /// `voice_mode_type` as a [`VoiceModeType`]: the blob counts from 1, so
    /// 0 is out of range (1--4) and other values map to the program value
    /// one below.
    pub fn voice_mode_type_enum(&self) -> (r: Result<VoiceModeType, Error>)
        ensures
            self.voice_mode_type == 0 ==> r == Error::out_of_range_result::<VoiceModeType>("VoiceModeType", 0, 1, 4),
            self.voice_mode_type > 0 ==> r == VoiceModeType::spec_from_program_value((self.voice_mode_type - 1) as u8),
    {
        if self.voice_mode_type == 0 {
            return Err(Error::OutOfRange { name: "VoiceModeType", value: 0, min: 1, max: 4 });
        }
        VoiceModeType::from_program_value(self.voice_mode_type - 1)
    }

    /// `mod_fx_type` as a [`ModFxType`]: the blob counts from 1, so 0 is out
    /// of range (1--5) and other values map to the program value one below.
    pub fn mod_fx_type_enum(&self) -> (r: Result<ModFxType, Error>)
        ensures
            self.mod_fx_type == 0 ==> r == Error::out_of_range_result::<ModFxType>("ModFxType", 0, 1, 5),
            self.mod_fx_type > 0 ==> r == ModFxType::spec_from_program_value((self.mod_fx_type - 1) as u8),
    {
        if self.mod_fx_type == 0 {
            return Err(Error::OutOfRange { name: "ModFxType", value: 0, min: 1, max: 5 });
        }
        ModFxType::from_program_value(self.mod_fx_type - 1)
    }

    /// `micro_tuning` as a [`MicroTuning`].
    pub fn micro_tuning_enum(&self) -> (r: Result<MicroTuning, Error>)
        ensures
            r == MicroTuning::spec_from_program_value(self.micro_tuning),
    {
        MicroTuning::from_program_value(self.micro_tuning)
    }

    /// `select_vpm` as a [`MultiSelectVpm`].
    pub fn select_vpm_enum(&self) -> (r: Result<MultiSelectVpm, Error>)
        ensures
            r == MultiSelectVpm::spec_from_program_value(self.select_vpm),
    {
        MultiSelectVpm::from_program_value(self.select_vpm)
    }

    /// `select_user` as a [`MultiSelectUser`].
    pub fn select_user_enum(&self) -> (r: Result<MultiSelectUser, Error>)
        ensures
            r == MultiSelectUser::spec_from_program_value(self.select_user),
    {
        MultiSelectUser::from_program_value(self.select_user)
    }
}


impl PartialEq for SynthParams {
    /// Two parameter sets are equal when all their fields are.
    fn eq(&self, other: &Self) -> (r: bool) {
        if self.name != other.name {
            return false;
        }
        if self.octave != other.octave {
            return false;
        }
        if self.portamento != other.portamento {
            return false;
        }
        if self.key_trig != other.key_trig {
            return false;
        }
        if self.voice_mode_depth != other.voice_mode_depth {
            return false;
        }
        if self.voice_mode_type != other.voice_mode_type {
            return false;
        }
        if self.vco1_wave != other.vco1_wave {
            return false;
        }
        if self.vco1_octave != other.vco1_octave {
            return false;
        }
        if self.vco1_pitch != other.vco1_pitch {
            return false;
        }
        if self.vco1_shape != other.vco1_shape {
            return false;
        }
        if self.vco2_wave != other.vco2_wave {
            return false;
        }
        if self.vco2_octave != other.vco2_octave {
            return false;
        }
        if self.vco2_pitch != other.vco2_pitch {
            return false;
        }
        if self.vco2_shape != other.vco2_shape {
            return false;
        }
        if self.sync != other.sync {
            return false;
        }
        if self.ring != other.ring {
            return false;
        }
        if self.cross_mod_depth != other.cross_mod_depth {
            return false;
        }
        if self.multi_type != other.multi_type {
            return false;
        }
        if self.select_noise != other.select_noise {
            return false;
        }
        if self.select_vpm != other.select_vpm {
            return false;
        }
        if self.select_user != other.select_user {
            return false;
        }
        if self.shape_noise != other.shape_noise {
            return false;
        }
        if self.shape_vpm != other.shape_vpm {
            return false;
        }
        if self.shape_user != other.shape_user {
            return false;
        }
        if self.shift_shape_noise != other.shift_shape_noise {
            return false;
        }
        if self.shift_shape_vpm != other.shift_shape_vpm {
            return false;
        }
        if self.shift_shape_user != other.shift_shape_user {
            return false;
        }
        if self.vco1_level != other.vco1_level {
            return false;
        }
        if self.vco2_level != other.vco2_level {
            return false;
        }
        if self.multi_level != other.multi_level {
            return false;
        }
        if self.cutoff != other.cutoff {
            return false;
        }
        if self.resonance != other.resonance {
            return false;
        }
        if self.cutoff_drive != other.cutoff_drive {
            return false;
        }
        if self.cutoff_keytrack != other.cutoff_keytrack {
            return false;
        }
        if self.amp_eg_attack != other.amp_eg_attack {
            return false;
        }
        if self.amp_eg_decay != other.amp_eg_decay {
            return false;
        }
        if self.amp_eg_sustain != other.amp_eg_sustain {
            return false;
        }
        if self.amp_eg_release != other.amp_eg_release {
            return false;
        }
        if self.eg_attack != other.eg_attack {
            return false;
        }
        if self.eg_decay != other.eg_decay {
            return false;
        }
        if self.eg_int != other.eg_int {
            return false;
        }
        if self.eg_target != other.eg_target {
            return false;
        }
        if self.lfo_wave != other.lfo_wave {
            return false;
        }
        if self.lfo_mode != other.lfo_mode {
            return false;
        }
        if self.lfo_rate != other.lfo_rate {
            return false;
        }
        if self.lfo_int != other.lfo_int {
            return false;
        }
        if self.lfo_target != other.lfo_target {
            return false;
        }
        if self.mod_fx_on != other.mod_fx_on {
            return false;
        }
        if self.mod_fx_type != other.mod_fx_type {
            return false;
        }
        if self.mod_fx_chorus != other.mod_fx_chorus {
            return false;
        }
        if self.mod_fx_ensemble != other.mod_fx_ensemble {
            return false;
        }
        if self.mod_fx_phaser != other.mod_fx_phaser {
            return false;
        }
        if self.mod_fx_flanger != other.mod_fx_flanger {
            return false;
        }
        if self.mod_fx_user != other.mod_fx_user {
            return false;
        }
        if self.mod_fx_time != other.mod_fx_time {
            return false;
        }
        if self.mod_fx_depth != other.mod_fx_depth {
            return false;
        }
        if self.delay_on != other.delay_on {
            return false;
        }
        if self.delay_sub_type != other.delay_sub_type {
            return false;
        }
        if self.delay_time != other.delay_time {
            return false;
        }
        if self.delay_depth != other.delay_depth {
            return false;
        }
        if self.reverb_on != other.reverb_on {
            return false;
        }
        if self.reverb_sub_type != other.reverb_sub_type {
            return false;
        }
        if self.reverb_time != other.reverb_time {
            return false;
        }
        if self.reverb_depth != other.reverb_depth {
            return false;
        }
        if self.bend_range_plus != other.bend_range_plus {
            return false;
        }
        if self.bend_range_minus != other.bend_range_minus {
            return false;
        }
        if self.joystick_assign_plus != other.joystick_assign_plus {
            return false;
        }
        if self.joystick_range_plus != other.joystick_range_plus {
            return false;
        }
        if self.joystick_assign_minus != other.joystick_assign_minus {
            return false;
        }
        if self.joystick_range_minus != other.joystick_range_minus {
            return false;
        }
        if self.cv_in_mode != other.cv_in_mode {
            return false;
        }
        if self.cv_in1_assign != other.cv_in1_assign {
            return false;
        }
        if self.cv_in1_range != other.cv_in1_range {
            return false;
        }
        if self.cv_in2_assign != other.cv_in2_assign {
            return false;
        }
        if self.cv_in2_range != other.cv_in2_range {
            return false;
        }
        if self.micro_tuning != other.micro_tuning {
            return false;
        }
        if self.scale_key != other.scale_key {
            return false;
        }
        if self.program_tuning != other.program_tuning {
            return false;
        }
        if self.lfo_key_sync != other.lfo_key_sync {
            return false;
        }
        if self.lfo_voice_sync != other.lfo_voice_sync {
            return false;
        }
        if self.lfo_target_osc != other.lfo_target_osc {
            return false;
        }
        if self.cutoff_velocity != other.cutoff_velocity {
            return false;
        }
        if self.amp_velocity != other.amp_velocity {
            return false;
        }
        if self.multi_octave != other.multi_octave {
            return false;
        }
        if self.multi_routing != other.multi_routing {
            return false;
        }
        if self.eg_legato != other.eg_legato {
            return false;
        }
        if self.portamento_mode != other.portamento_mode {
            return false;
        }
        if self.portamento_bpm_sync != other.portamento_bpm_sync {
            return false;
        }
        if self.program_level != other.program_level {
            return false;
        }
        if self.vpm_param1 != other.vpm_param1 {
            return false;
        }
        if self.vpm_param2 != other.vpm_param2 {
            return false;
        }
        if self.vpm_param3 != other.vpm_param3 {
            return false;
        }
        if self.vpm_param4 != other.vpm_param4 {
            return false;
        }
        if self.vpm_param5 != other.vpm_param5 {
            return false;
        }
        if self.vpm_param6 != other.vpm_param6 {
            return false;
        }
        if self.user_param1 != other.user_param1 {
            return false;
        }
        if self.user_param2 != other.user_param2 {
            return false;
        }
        if self.user_param3 != other.user_param3 {
            return false;
        }
        if self.user_param4 != other.user_param4 {
            return false;
        }
        if self.user_param5 != other.user_param5 {
            return false;
        }
        if self.user_param6 != other.user_param6 {
            return false;
        }
        if self.user_param5_type != other.user_param5_type {
            return false;
        }
        if self.user_param6_type != other.user_param6_type {
            return false;
        }
        if self.user_param1_type != other.user_param1_type {
            return false;
        }
        if self.user_param2_type != other.user_param2_type {
            return false;
        }
        if self.user_param3_type != other.user_param3_type {
            return false;
        }
        if self.user_param4_type != other.user_param4_type {
            return false;
        }
        if self.program_transpose != other.program_transpose {
            return false;
        }
        if self.delay_dry_wet != other.delay_dry_wet {
            return false;
        }
        if self.reverb_dry_wet != other.reverb_dry_wet {
            return false;
        }
        if self.midi_after_touch_assign != other.midi_after_touch_assign {
            return false;
        }
        true
    }
}

impl vstd::std_specs::cmp::PartialEqSpecImpl for SynthParams {
    open spec fn obeys_eq_spec() -> bool {
        true
    }

    open spec fn eq_spec(&self, other: &SynthParams) -> bool {
        *self == *other
    }
}

/// `p` holds the parameters of an initialized program.
pub open spec fn is_default_synth(p: SynthParams) -> bool {
    &&& p.name.bytes_of() == Seq::new(12, |i: int| 32u8)
    &&& p.octave == 2
    &&& p.portamento == 0
    &&& p.key_trig == false
    &&& p.voice_mode_depth == 0
    &&& p.voice_mode_type == 3
    &&& p.vco1_wave == VcoWave::Saw
    &&& p.vco1_octave == VcoOctave::Eight
    &&& p.vco1_pitch == 512
    &&& p.vco1_shape == 0
    &&& p.vco2_wave == VcoWave::Saw
    &&& p.vco2_octave == VcoOctave::Eight
    &&& p.vco2_pitch == 512
    &&& p.vco2_shape == 0
    &&& p.sync == false
    &&& p.ring == false
    &&& p.cross_mod_depth == 0
    &&& p.multi_type == MultiType::Noise
    &&& p.select_noise == MultiSelectNoise::High
    &&& p.select_vpm == 0
    &&& p.select_user == 0
    &&& p.shape_noise == 0
    &&& p.shape_vpm == 0
    &&& p.shape_user == 0
    &&& p.shift_shape_noise == 0
    &&& p.shift_shape_vpm == 0
    &&& p.shift_shape_user == 0
    &&& p.vco1_level == 1023
    &&& p.vco2_level == 0
    &&& p.multi_level == 0
    &&& p.cutoff == 1023
    &&& p.resonance == 0
    &&& p.cutoff_drive == CutoffDrive::Off
    &&& p.cutoff_keytrack == CutoffKeytrack::Off
    &&& p.amp_eg_attack == 0
    &&& p.amp_eg_decay == 1023
    &&& p.amp_eg_sustain == 1023
    &&& p.amp_eg_release == 0
    &&& p.eg_attack == 0
    &&& p.eg_decay == 1023
    &&& p.eg_int == 512
    &&& p.eg_target == EgTarget::Cutoff
    &&& p.lfo_wave == LfoWave::Tri
    &&& p.lfo_mode == LfoMode::Normal
    &&& p.lfo_rate == 512
    &&& p.lfo_int == 0
    &&& p.lfo_target == LfoTarget::Cutoff
    &&& p.mod_fx_on == false
    &&& p.mod_fx_type == 1
    &&& p.mod_fx_chorus == 0
    &&& p.mod_fx_ensemble == 0
    &&& p.mod_fx_phaser == 0
    &&& p.mod_fx_flanger == 0
    &&& p.mod_fx_user == 0
    &&& p.mod_fx_time == 0
    &&& p.mod_fx_depth == 0
    &&& p.delay_on == false
    &&& p.delay_sub_type == DelaySubType::Stereo
    &&& p.delay_time == 0
    &&& p.delay_depth == 0
    &&& p.reverb_on == false
    &&& p.reverb_sub_type == ReverbSubType::Hall
    &&& p.reverb_time == 0
    &&& p.reverb_depth == 0
    &&& p.bend_range_plus == 2
    &&& p.bend_range_minus == 2
    &&& p.joystick_assign_plus == ModAssignTarget::Unassigned
    &&& p.joystick_range_plus == 100
    &&& p.joystick_assign_minus == ModAssignTarget::Unassigned
    &&& p.joystick_range_minus == 100
    &&& p.cv_in_mode == CvInMode::Modulation
    &&& p.cv_in1_assign == ModAssignTarget::Unassigned
    &&& p.cv_in1_range == 100
    &&& p.cv_in2_assign == ModAssignTarget::Unassigned
    &&& p.cv_in2_range == 100
    &&& p.micro_tuning == 0
    &&& p.scale_key == 12
    &&& p.program_tuning == 50
    &&& p.lfo_key_sync == false
    &&& p.lfo_voice_sync == false
    &&& p.lfo_target_osc == LfoTargetOsc::All
    &&& p.cutoff_velocity == 0
    &&& p.amp_velocity == 0
    &&& p.multi_octave == VcoOctave::Eight
    &&& p.multi_routing == MultiRouting::PreVcf
    &&& p.eg_legato == false
    &&& p.portamento_mode == PortamentoMode::Auto
    &&& p.portamento_bpm_sync == false
    &&& p.program_level == 102
    &&& p.vpm_param1 == 0
    &&& p.vpm_param2 == 0
    &&& p.vpm_param3 == 0
    &&& p.vpm_param4 == 0
    &&& p.vpm_param5 == 0
    &&& p.vpm_param6 == 0
    &&& p.user_param1 == 0
    &&& p.user_param2 == 0
    &&& p.user_param3 == 0
    &&& p.user_param4 == 0
    &&& p.user_param5 == 0
    &&& p.user_param6 == 0
    &&& p.user_param5_type == UserParamType::Percent
    &&& p.user_param6_type == UserParamType::Percent
    &&& p.user_param1_type == UserParamType::Percent
    &&& p.user_param2_type == UserParamType::Percent
    &&& p.user_param3_type == UserParamType::Percent
    &&& p.user_param4_type == UserParamType::Percent
    &&& p.program_transpose == 13
    &&& p.delay_dry_wet == 512
    &&& p.reverb_dry_wet == 512
    &&& p.midi_after_touch_assign == ModAssignTarget::Unassigned
}

impl Default for SynthParams {
    /// The parameters of an initialized program.
    fn default() -> (p: Self)
        ensures
            is_default_synth(p),
    {
        SynthParams {
            name: ProgramName::default(),
            octave: 2,
            portamento: 0,
            key_trig: false,
            voice_mode_depth: 0,
            voice_mode_type: 3,
            vco1_wave: VcoWave::Saw,
            vco1_octave: VcoOctave::Eight,
            vco1_pitch: 512,
            vco1_shape: 0,
            vco2_wave: VcoWave::Saw,
            vco2_octave: VcoOctave::Eight,
            vco2_pitch: 512,
            vco2_shape: 0,
            sync: false,
            ring: false,
            cross_mod_depth: 0,
            multi_type: MultiType::Noise,
            select_noise: MultiSelectNoise::High,
            select_vpm: 0,
            select_user: 0,
            shape_noise: 0,
            shape_vpm: 0,
            shape_user: 0,
            shift_shape_noise: 0,
            shift_shape_vpm: 0,
            shift_shape_user: 0,
            vco1_level: 1023,
            vco2_level: 0,
            multi_level: 0,
            cutoff: 1023,
            resonance: 0,
            cutoff_drive: CutoffDrive::Off,
            cutoff_keytrack: CutoffKeytrack::Off,
            amp_eg_attack: 0,
            amp_eg_decay: 1023,
            amp_eg_sustain: 1023,
            amp_eg_release: 0,
            eg_attack: 0,
            eg_decay: 1023,
            eg_int: 512,
            eg_target: EgTarget::Cutoff,
            lfo_wave: LfoWave::Tri,
            lfo_mode: LfoMode::Normal,
            lfo_rate: 512,
            lfo_int: 0,
            lfo_target: LfoTarget::Cutoff,
            mod_fx_on: false,
            mod_fx_type: 1,
            mod_fx_chorus: 0,
            mod_fx_ensemble: 0,
            mod_fx_phaser: 0,
            mod_fx_flanger: 0,
            mod_fx_user: 0,
            mod_fx_time: 0,
            mod_fx_depth: 0,
            delay_on: false,
            delay_sub_type: DelaySubType::Stereo,
            delay_time: 0,
            delay_depth: 0,
            reverb_on: false,
            reverb_sub_type: ReverbSubType::Hall,
            reverb_time: 0,
            reverb_depth: 0,
            bend_range_plus: 2,
            bend_range_minus: 2,
            joystick_assign_plus: ModAssignTarget::Unassigned,
            joystick_range_plus: 100,
            joystick_assign_minus: ModAssignTarget::Unassigned,
            joystick_range_minus: 100,
            cv_in_mode: CvInMode::Modulation,
            cv_in1_assign: ModAssignTarget::Unassigned,
            cv_in1_range: 100,
            cv_in2_assign: ModAssignTarget::Unassigned,
            cv_in2_range: 100,
            micro_tuning: 0,
            scale_key: 12,
            program_tuning: 50,
            lfo_key_sync: false,
            lfo_voice_sync: false,
            lfo_target_osc: LfoTargetOsc::All,
            cutoff_velocity: 0,
            amp_velocity: 0,
            multi_octave: VcoOctave::Eight,
            multi_routing: MultiRouting::PreVcf,
            eg_legato: false,
            portamento_mode: PortamentoMode::Auto,
            portamento_bpm_sync: false,
            program_level: 102,
            vpm_param1: 0,
            vpm_param2: 0,
            vpm_param3: 0,
            vpm_param4: 0,
            vpm_param5: 0,
            vpm_param6: 0,
            user_param1: 0,
            user_param2: 0,
            user_param3: 0,
            user_param4: 0,
            user_param5: 0,
            user_param6: 0,
            user_param5_type: UserParamType::Percent,
            user_param6_type: UserParamType::Percent,
            user_param1_type: UserParamType::Percent,
            user_param2_type: UserParamType::Percent,
            user_param3_type: UserParamType::Percent,
            user_param4_type: UserParamType::Percent,
            program_transpose: 13,
            delay_dry_wet: 512,
            reverb_dry_wet: 512,
            midi_after_touch_assign: ModAssignTarget::Unassigned,
        }
    }
}

// ---------------------------------------------------------------------------
// Laws of the synth block
// ---------------------------------------------------------------------------

/// The display types of the user parameters read back from the packed bytes
/// 148 and 149, and packing what was read gives those bytes back.
proof fn lemma_packed_param_types(base: u8, t1: u8, t2: u8, t3: u8, t4: u8, t5: u8, t6: u8, b148: u8, b149: u8)
    by (bit_vector)
    requires
        t1 < 4,
        t2 < 4,
        t3 < 4,
        t4 < 4,
        t5 < 4,
        t6 < 4,
    ensures
        packed_param_types_5_6(base, t5, t6) & 0x03 == t5,
        (packed_param_types_5_6(base, t5, t6) >> 2u8) & 0x03 == t6,
        packed_param_types_5_6(base, t5, t6) & 0xF0 == base & 0xF0,
        packed_param_types_1_4(t1, t2, t3, t4) & 0x03 == t1,
        (packed_param_types_1_4(t1, t2, t3, t4) >> 2u8) & 0x03 == t2,
        (packed_param_types_1_4(t1, t2, t3, t4) >> 4u8) & 0x03 == t3,
        (packed_param_types_1_4(t1, t2, t3, t4) >> 6u8) & 0x03 == t4,
        packed_param_types_5_6(b148, b148 & 0x03, (b148 >> 2u8) & 0x03) == b148,
        packed_param_types_1_4(b149 & 0x03, (b149 >> 2u8) & 0x03, (b149 >> 4u8) & 0x03, (b149 >> 6u8) & 0x03) == b149,
{
}

/// Part 1 of the fields that in-range parameters write read back as
/// themselves.
proof fn lemma_synth_written_part_1(p: SynthParams, base: Seq<u8>)
    requires
        synth_in_range(p),
        base.len() == 156,
    ensures
        synth_fields_match_1(synth_bytes(p, base), p),
{
    reveal(synth_byte_at);
    let b = synth_bytes(p, base);
    assert(b.subrange(4, 16) =~= p.name.bytes_of());
    lemma_ten_bit_round_trip(base[20], p.voice_mode_depth);
    p.vco1_wave.lemma_program_value_round_trip(0);
    p.vco1_octave.lemma_program_value_round_trip(0);
    lemma_ten_bit_round_trip(base[25], p.vco1_pitch);
    lemma_ten_bit_round_trip(base[27], p.vco1_shape);
    p.vco2_wave.lemma_program_value_round_trip(0);
    p.vco2_octave.lemma_program_value_round_trip(0);
    lemma_ten_bit_round_trip(base[31], p.vco2_pitch);
    lemma_ten_bit_round_trip(base[33], p.vco2_shape);
    lemma_ten_bit_round_trip(base[37], p.cross_mod_depth);
    p.multi_type.lemma_program_value_round_trip(0);
    p.select_noise.lemma_program_value_round_trip(0);
    lemma_ten_bit_round_trip(base[43], p.shape_noise);
    lemma_ten_bit_round_trip(base[45], p.shape_vpm);
    lemma_ten_bit_round_trip(base[47], p.shape_user);
    lemma_ten_bit_round_trip(base[49], p.shift_shape_noise);
    lemma_ten_bit_round_trip(base[51], p.shift_shape_vpm);
    lemma_ten_bit_round_trip(base[53], p.shift_shape_user);
    lemma_ten_bit_round_trip(base[55], p.vco1_level);
    lemma_ten_bit_round_trip(base[57], p.vco2_level);
    lemma_ten_bit_round_trip(base[59], p.multi_level);
    assert(synth_fields_match_1(b, p));
}

/// Part 2 of the fields that in-range parameters write read back as
/// themselves.
proof fn lemma_synth_written_part_2(p: SynthParams, base: Seq<u8>)
    requires
        synth_in_range(p),
        base.len() == 156,
    ensures
        synth_fields_match_2(synth_bytes(p, base), p),
{
    reveal(synth_byte_at);
    let b = synth_bytes(p, base);
    lemma_ten_bit_round_trip(base[61], p.cutoff);
    lemma_ten_bit_round_trip(base[63], p.resonance);
    p.cutoff_drive.lemma_program_value_round_trip(0);
    p.cutoff_keytrack.lemma_program_value_round_trip(0);
    lemma_ten_bit_round_trip(base[67], p.amp_eg_attack);
    lemma_ten_bit_round_trip(base[69], p.amp_eg_decay);
    lemma_ten_bit_round_trip(base[71], p.amp_eg_sustain);
    lemma_ten_bit_round_trip(base[73], p.amp_eg_release);
    lemma_ten_bit_round_trip(base[75], p.eg_attack);
    lemma_ten_bit_round_trip(base[77], p.eg_decay);
    lemma_ten_bit_round_trip(base[79], p.eg_int);
    p.eg_target.lemma_program_value_round_trip(0);
    p.lfo_wave.lemma_program_value_round_trip(0);
    p.lfo_mode.lemma_program_value_round_trip(0);
    lemma_ten_bit_round_trip(base[84], p.lfo_rate);
    lemma_ten_bit_round_trip(base[86], p.lfo_int);
    p.lfo_target.lemma_program_value_round_trip(0);
    lemma_ten_bit_round_trip(base[96], p.mod_fx_time);
    lemma_ten_bit_round_trip(base[98], p.mod_fx_depth);
    p.delay_sub_type.lemma_program_value_round_trip(0);
    lemma_ten_bit_round_trip(base[102], p.delay_time);
    lemma_ten_bit_round_trip(base[104], p.delay_depth);
    assert(synth_fields_match_2(b, p));
}

/// Part 3 of the fields that in-range parameters write read back as
/// themselves.
proof fn lemma_synth_written_part_3(p: SynthParams, base: Seq<u8>)
    requires
        synth_in_range(p),
        base.len() == 156,
    ensures
        synth_fields_match_3(synth_bytes(p, base), p),
{
    reveal(synth_byte_at);
    let b = synth_bytes(p, base);
    p.reverb_sub_type.lemma_program_value_round_trip(0);
    lemma_ten_bit_round_trip(base[108], p.reverb_time);
    lemma_ten_bit_round_trip(base[110], p.reverb_depth);
    p.joystick_assign_plus.lemma_program_value_round_trip(0);
    p.joystick_assign_minus.lemma_program_value_round_trip(0);
    p.cv_in_mode.lemma_program_value_round_trip(0);
    p.cv_in1_assign.lemma_program_value_round_trip(0);
    p.cv_in2_assign.lemma_program_value_round_trip(0);
    p.lfo_target_osc.lemma_program_value_round_trip(0);
    p.multi_octave.lemma_program_value_round_trip(0);
    p.multi_routing.lemma_program_value_round_trip(0);
    p.portamento_mode.lemma_program_value_round_trip(0);
    assert(synth_fields_match_3(b, p));
}

/// Part 4 of the fields that in-range parameters write read back as
/// themselves.
proof fn lemma_synth_written_part_4(p: SynthParams, base: Seq<u8>)
    requires
        synth_in_range(p),
        base.len() == 156,
    ensures
        synth_fields_match_4(synth_bytes(p, base), p),
{
    reveal(synth_byte_at);
    let b = synth_bytes(p, base);
    lemma_ten_bit_round_trip(base[152], p.delay_dry_wet);
    lemma_ten_bit_round_trip(base[154], p.reverb_dry_wet);
    p.midi_after_touch_assign.lemma_program_value_round_trip(0);
    lemma_packed_param_types(
        base[148],
        p.user_param1_type.spec_program_value(),
        p.user_param2_type.spec_program_value(),
        p.user_param3_type.spec_program_value(),
        p.user_param4_type.spec_program_value(),
        p.user_param5_type.spec_program_value(),
        p.user_param6_type.spec_program_value(),
        0,
        0,
    );
    p.user_param5_type.lemma_program_value_round_trip(0);
    p.user_param6_type.lemma_program_value_round_trip(0);
    p.user_param1_type.lemma_program_value_round_trip(0);
    p.user_param2_type.lemma_program_value_round_trip(0);
    p.user_param3_type.lemma_program_value_round_trip(0);
    p.user_param4_type.lemma_program_value_round_trip(0);
    assert(synth_fields_match_4(b, p));
}

/// A block with the magic, whose fields match parameters with a valid
/// name, passes every check of [`SynthParams::from_bytes`].
proof fn lemma_synth_match_fault_free(b: Seq<u8>, p: SynthParams)
    requires
        b.len() >= 156,
        b.subrange(0, 4) == prog_magic(),
        valid_name(p.name.bytes_of()),
        synth_fields_match(b, p),
    ensures
        synth_fault(b) is None,
{
    lemma_first_invalid_none(b.subrange(4, 16));
}

/// At most one set of parameters matches a block.
proof fn lemma_synth_fields_determine(b: Seq<u8>, p: SynthParams, q: SynthParams)
    requires
        synth_fields_match(b, p),
        synth_fields_match(b, q),
    ensures
        p == q,
{
    ProgramName::lemma_bytes_determine(p.name, q.name);
}

/// The block starts with the magic.
proof fn lemma_synth_written_magic(p: SynthParams, base: Seq<u8>)
    ensures
        synth_bytes(p, base).subrange(0, 4) == prog_magic(),
{
    reveal(synth_byte_at);
    assert(synth_bytes(p, base).subrange(0, 4) =~= prog_magic());
}

/// In-range parameters write a block that parses as themselves.
proof fn lemma_synth_written(p: SynthParams, base: Seq<u8>)
    requires
        synth_in_range(p),
        base.len() == 156,
    ensures
        synth_fault(synth_bytes(p, base)) is None,
        synth_fields_match(synth_bytes(p, base), p),
{
    let b = synth_bytes(p, base);
    lemma_synth_written_part_1(p, base);
    lemma_synth_written_part_2(p, base);
    lemma_synth_written_part_3(p, base);
    lemma_synth_written_part_4(p, base);
    lemma_synth_written_magic(p, base);
    lemma_synth_match_fault_free(b, p);
}

/// Reading back the block that in-range parameters write over any base
/// block gives the same parameters.
pub proof fn lemma_synth_round_trip(p: SynthParams, base: Seq<u8>, r: Result<SynthParams, Error>)
    requires
        synth_in_range(p),
        base.len() == 156,
        synth_parses_as(synth_bytes(p, base), r),
    ensures
        r == Ok::<SynthParams, Error>(p),
{
    let b = synth_bytes(p, base);
    lemma_synth_written(p, base);
    if let Ok(q) = r {
        lemma_synth_fields_determine(b, p, q);
    }
}

/// Writing the parameters read from a block back over that block gives
/// its 156 bytes back unchanged.
pub proof fn lemma_synth_rewrite(b: Seq<u8>, p: SynthParams)
    requires
        synth_parses_as(b, Ok::<SynthParams, Error>(p)),
    ensures
        synth_bytes(p, b.subrange(0, 156)) == b.subrange(0, 156),
{
    reveal(synth_byte_at);
    let base = b.subrange(0, 156);
    lemma_ten_bit_rewrite(b[19], b[20]);
    lemma_ten_bit_rewrite(b[24], b[25]);
    lemma_ten_bit_rewrite(b[26], b[27]);
    lemma_ten_bit_rewrite(b[30], b[31]);
    lemma_ten_bit_rewrite(b[32], b[33]);
    lemma_ten_bit_rewrite(b[36], b[37]);
    lemma_ten_bit_rewrite(b[42], b[43]);
    lemma_ten_bit_rewrite(b[44], b[45]);
    lemma_ten_bit_rewrite(b[46], b[47]);
    lemma_ten_bit_rewrite(b[48], b[49]);
    lemma_ten_bit_rewrite(b[50], b[51]);
    lemma_ten_bit_rewrite(b[52], b[53]);
    lemma_ten_bit_rewrite(b[54], b[55]);
    lemma_ten_bit_rewrite(b[56], b[57]);
    lemma_ten_bit_rewrite(b[58], b[59]);
    lemma_ten_bit_rewrite(b[60], b[61]);
    lemma_ten_bit_rewrite(b[62], b[63]);
    lemma_ten_bit_rewrite(b[66], b[67]);
    lemma_ten_bit_rewrite(b[68], b[69]);
    lemma_ten_bit_rewrite(b[70], b[71]);
    lemma_ten_bit_rewrite(b[72], b[73]);
    lemma_ten_bit_rewrite(b[74], b[75]);
    lemma_ten_bit_rewrite(b[76], b[77]);
    lemma_ten_bit_rewrite(b[78], b[79]);
    lemma_ten_bit_rewrite(b[83], b[84]);
    lemma_ten_bit_rewrite(b[85], b[86]);
    lemma_ten_bit_rewrite(b[95], b[96]);
    lemma_ten_bit_rewrite(b[97], b[98]);
    lemma_ten_bit_rewrite(b[101], b[102]);
    lemma_ten_bit_rewrite(b[103], b[104]);
    lemma_ten_bit_rewrite(b[107], b[108]);
    lemma_ten_bit_rewrite(b[109], b[110]);
    lemma_ten_bit_rewrite(b[151], b[152]);
    lemma_ten_bit_rewrite(b[153], b[154]);
    p.vco1_wave.lemma_program_value_round_trip(b[22]);
    p.vco1_octave.lemma_program_value_round_trip(b[23]);
    p.vco2_wave.lemma_program_value_round_trip(b[28]);
    p.vco2_octave.lemma_program_value_round_trip(b[29]);
    p.multi_type.lemma_program_value_round_trip(b[38]);
    p.select_noise.lemma_program_value_round_trip(b[39]);
    p.cutoff_drive.lemma_program_value_round_trip(b[64]);
    p.cutoff_keytrack.lemma_program_value_round_trip(b[65]);
    p.eg_target.lemma_program_value_round_trip(b[80]);
    p.lfo_wave.lemma_program_value_round_trip(b[81]);
    p.lfo_mode.lemma_program_value_round_trip(b[82]);
    p.lfo_target.lemma_program_value_round_trip(b[87]);
    p.delay_sub_type.lemma_program_value_round_trip(b[100]);
    p.reverb_sub_type.lemma_program_value_round_trip(b[106]);
    p.joystick_assign_plus.lemma_program_value_round_trip(b[113]);
    p.joystick_assign_minus.lemma_program_value_round_trip(b[115]);
    p.cv_in_mode.lemma_program_value_round_trip(b[117]);
    p.cv_in1_assign.lemma_program_value_round_trip(b[118]);
    p.cv_in2_assign.lemma_program_value_round_trip(b[120]);
    p.lfo_target_osc.lemma_program_value_round_trip(b[127]);
    p.multi_octave.lemma_program_value_round_trip(b[130]);
    p.multi_routing.lemma_program_value_round_trip(b[131]);
    p.portamento_mode.lemma_program_value_round_trip(b[133]);
    p.midi_after_touch_assign.lemma_program_value_round_trip(b[155]);
    lemma_packed_param_types(0, 0, 0, 0, 0, 0, 0, b[148], b[149]);
    p.user_param5_type.lemma_program_value_round_trip(b[148] & 0x03);
    p.user_param6_type.lemma_program_value_round_trip((b[148] >> 2u8) & 0x03);
    p.user_param1_type.lemma_program_value_round_trip(b[149] & 0x03);
    p.user_param2_type.lemma_program_value_round_trip((b[149] >> 2u8) & 0x03);
    p.user_param3_type.lemma_program_value_round_trip((b[149] >> 4u8) & 0x03);
    p.user_param4_type.lemma_program_value_round_trip((b[149] >> 6u8) & 0x03);
    assert(b.subrange(0, 4) =~= prog_magic());
    assert forall|i: int| 0 <= i < 4 implies base[i] == prog_magic()[i] by {
        assert(b.subrange(0, 4)[i] == b[i]);
    }
    assert forall|i: int| 4 <= i < 16 implies base[i] == p.name.bytes_of()[i - 4] by {
        assert(b.subrange(4, 16)[i - 4] == b[i]);
    }
    assert(synth_bytes(p, base) =~= base);
}



/// A 10-bit value read from a low byte and the low two bits of a high byte.
proof fn lemma_ten_bit_read(lo: u8, hi: u8)
    ensures
        ten_bit_value(lo, hi) == (lo as u16) | (((hi & 3) as u16) << 8u16),
{
    assert((((hi as u16) << 8u16) | (lo as u16)) & 0x03FF == (lo as u16) | (((hi & 3) as u16) << 8u16)) by (bit_vector);
}

/// A 10-bit value written as its low byte and, in the low two bits of the
/// high byte, its bits 8 and 9.
proof fn lemma_ten_bit_write(old_hi: u8, v: u16)
    ensures
        ten_bit_low(v) == (v & 0xFF) as u8,
        ten_bit_high(old_hi, v) & 3 == ((v >> 8u16) & 3) as u8,
{
    assert(((v & 0x03FF) & 0xFF) as u8 == (v & 0xFF) as u8 && ((old_hi & 0xFC) | (((v & 0x03FF) >> 8u16) as u8)) & 3 == ((v
        >> 8u16) & 3) as u8) by (bit_vector);
}

/// The layout of the synth block, field by field (MIDI implementation,
/// program data offsets 0--155): a block that [`SynthParams::from_bytes`]
/// accepts gives each field from its fixed offset: the name from 4--15,
/// octave 16, portamento 17, key trigger 18, ..., cutoff velocity 128, amp
/// velocity 129, ..., program transpose 150 and the dry/wet levels from
/// 151--154; each 10-bit value from a low byte and bits 0--1 of the next;
/// sync and ring stored inverted (0 = on).
pub proof fn lemma_synth_read_layout(b: Seq<u8>, p: SynthParams)
    requires
        synth_parses_as(b, Ok::<SynthParams, Error>(p)),
    ensures
        p.name.bytes_of() == b.subrange(4, 16),
        p.octave == b[16],
        p.portamento == b[17],
        p.key_trig == (b[18] != 0),
        p.voice_mode_depth == (b[19] as u16) | (((b[20] & 3) as u16) << 8u16),
        p.voice_mode_type == b[21],
        VcoWave::spec_from_program_value(b[22]) == Ok::<VcoWave, Error>(p.vco1_wave),
        VcoOctave::spec_from_program_value(b[23]) == Ok::<VcoOctave, Error>(p.vco1_octave),
        p.vco1_pitch == (b[24] as u16) | (((b[25] & 3) as u16) << 8u16),
        p.vco1_shape == (b[26] as u16) | (((b[27] & 3) as u16) << 8u16),
        VcoWave::spec_from_program_value(b[28]) == Ok::<VcoWave, Error>(p.vco2_wave),
        VcoOctave::spec_from_program_value(b[29]) == Ok::<VcoOctave, Error>(p.vco2_octave),
        p.vco2_pitch == (b[30] as u16) | (((b[31] & 3) as u16) << 8u16),
        p.vco2_shape == (b[32] as u16) | (((b[33] & 3) as u16) << 8u16),
        p.sync == (b[34] == 0),
        p.ring == (b[35] == 0),
        p.cross_mod_depth == (b[36] as u16) | (((b[37] & 3) as u16) << 8u16),
        MultiType::spec_from_program_value(b[38]) == Ok::<MultiType, Error>(p.multi_type),
        MultiSelectNoise::spec_from_program_value(b[39]) == Ok::<MultiSelectNoise, Error>(p.select_noise),
        p.select_vpm == b[40],
        p.select_user == b[41],
        p.shape_noise == (b[42] as u16) | (((b[43] & 3) as u16) << 8u16),
        p.shape_vpm == (b[44] as u16) | (((b[45] & 3) as u16) << 8u16),
        p.shape_user == (b[46] as u16) | (((b[47] & 3) as u16) << 8u16),
        p.shift_shape_noise == (b[48] as u16) | (((b[49] & 3) as u16) << 8u16),
        p.shift_shape_vpm == (b[50] as u16) | (((b[51] & 3) as u16) << 8u16),
        p.shift_shape_user == (b[52] as u16) | (((b[53] & 3) as u16) << 8u16),
        p.vco1_level == (b[54] as u16) | (((b[55] & 3) as u16) << 8u16),
        p.vco2_level == (b[56] as u16) | (((b[57] & 3) as u16) << 8u16),
        p.multi_level == (b[58] as u16) | (((b[59] & 3) as u16) << 8u16),
        p.cutoff == (b[60] as u16) | (((b[61] & 3) as u16) << 8u16),
        p.resonance == (b[62] as u16) | (((b[63] & 3) as u16) << 8u16),
        CutoffDrive::spec_from_program_value(b[64]) == Ok::<CutoffDrive, Error>(p.cutoff_drive),
        CutoffKeytrack::spec_from_program_value(b[65]) == Ok::<CutoffKeytrack, Error>(p.cutoff_keytrack),
        p.amp_eg_attack == (b[66] as u16) | (((b[67] & 3) as u16) << 8u16),
        p.amp_eg_decay == (b[68] as u16) | (((b[69] & 3) as u16) << 8u16),
        p.amp_eg_sustain == (b[70] as u16) | (((b[71] & 3) as u16) << 8u16),
        p.amp_eg_release == (b[72] as u16) | (((b[73] & 3) as u16) << 8u16),
        p.eg_attack == (b[74] as u16) | (((b[75] & 3) as u16) << 8u16),
        p.eg_decay == (b[76] as u16) | (((b[77] & 3) as u16) << 8u16),
        p.eg_int == (b[78] as u16) | (((b[79] & 3) as u16) << 8u16),
        EgTarget::spec_from_program_value(b[80]) == Ok::<EgTarget, Error>(p.eg_target),
        LfoWave::spec_from_program_value(b[81]) == Ok::<LfoWave, Error>(p.lfo_wave),
        LfoMode::spec_from_program_value(b[82]) == Ok::<LfoMode, Error>(p.lfo_mode),
        p.lfo_rate == (b[83] as u16) | (((b[84] & 3) as u16) << 8u16),
        p.lfo_int == (b[85] as u16) | (((b[86] & 3) as u16) << 8u16),
        LfoTarget::spec_from_program_value(b[87]) == Ok::<LfoTarget, Error>(p.lfo_target),
        p.mod_fx_on == (b[88] != 0),
        p.mod_fx_type == b[89],
        p.mod_fx_chorus == b[90],
        p.mod_fx_ensemble == b[91],
        p.mod_fx_phaser == b[92],
        p.mod_fx_flanger == b[93],
        p.mod_fx_user == b[94],
        p.mod_fx_time == (b[95] as u16) | (((b[96] & 3) as u16) << 8u16),
        p.mod_fx_depth == (b[97] as u16) | (((b[98] & 3) as u16) << 8u16),
        p.delay_on == (b[99] != 0),
        DelaySubType::spec_from_program_value(b[100]) == Ok::<DelaySubType, Error>(p.delay_sub_type),
        p.delay_time == (b[101] as u16) | (((b[102] & 3) as u16) << 8u16),
        p.delay_depth == (b[103] as u16) | (((b[104] & 3) as u16) << 8u16),
        p.reverb_on == (b[105] != 0),
        ReverbSubType::spec_from_program_value(b[106]) == Ok::<ReverbSubType, Error>(p.reverb_sub_type),
        p.reverb_time == (b[107] as u16) | (((b[108] & 3) as u16) << 8u16),
        p.reverb_depth == (b[109] as u16) | (((b[110] & 3) as u16) << 8u16),
        p.bend_range_plus == b[111],
        p.bend_range_minus == b[112],
        ModAssignTarget::spec_from_program_value(b[113]) == Ok::<ModAssignTarget, Error>(p.joystick_assign_plus),
        p.joystick_range_plus == b[114],
        ModAssignTarget::spec_from_program_value(b[115]) == Ok::<ModAssignTarget, Error>(p.joystick_assign_minus),
        p.joystick_range_minus == b[116],
        CvInMode::spec_from_program_value(b[117]) == Ok::<CvInMode, Error>(p.cv_in_mode),
        ModAssignTarget::spec_from_program_value(b[118]) == Ok::<ModAssignTarget, Error>(p.cv_in1_assign),
        p.cv_in1_range == b[119],
        ModAssignTarget::spec_from_program_value(b[120]) == Ok::<ModAssignTarget, Error>(p.cv_in2_assign),
        p.cv_in2_range == b[121],
        p.micro_tuning == b[122],
        p.scale_key == b[123],
        p.program_tuning == b[124],
        p.lfo_key_sync == (b[125] != 0),
        p.lfo_voice_sync == (b[126] != 0),
        LfoTargetOsc::spec_from_program_value(b[127]) == Ok::<LfoTargetOsc, Error>(p.lfo_target_osc),
        p.cutoff_velocity == b[128],
        p.amp_velocity == b[129],
        VcoOctave::spec_from_program_value(b[130]) == Ok::<VcoOctave, Error>(p.multi_octave),
        MultiRouting::spec_from_program_value(b[131]) == Ok::<MultiRouting, Error>(p.multi_routing),
        p.eg_legato == (b[132] != 0),
        PortamentoMode::spec_from_program_value(b[133]) == Ok::<PortamentoMode, Error>(p.portamento_mode),
        p.portamento_bpm_sync == (b[134] != 0),
        p.program_level == b[135],
        p.vpm_param1 == b[136],
        p.vpm_param2 == b[137],
        p.vpm_param3 == b[138],
        p.vpm_param4 == b[139],
        p.vpm_param5 == b[140],
        p.vpm_param6 == b[141],
        p.user_param1 == b[142],
        p.user_param2 == b[143],
        p.user_param3 == b[144],
        p.user_param4 == b[145],
        p.user_param5 == b[146],
        p.user_param6 == b[147],
        p.program_transpose == b[150],
        p.delay_dry_wet == (b[151] as u16) | (((b[152] & 3) as u16) << 8u16),
        p.reverb_dry_wet == (b[153] as u16) | (((b[154] & 3) as u16) << 8u16),
        ModAssignTarget::spec_from_program_value(b[155]) == Ok::<ModAssignTarget, Error>(p.midi_after_touch_assign),
        UserParamType::spec_from_program_value(b[148] & 0x03) == Ok::<UserParamType, Error>(p.user_param5_type),
        UserParamType::spec_from_program_value((b[148] >> 2u8) & 0x03) == Ok::<UserParamType, Error>(p.user_param6_type),
        UserParamType::spec_from_program_value(b[149] & 0x03) == Ok::<UserParamType, Error>(p.user_param1_type),
        UserParamType::spec_from_program_value((b[149] >> 2u8) & 0x03) == Ok::<UserParamType, Error>(p.user_param2_type),
        UserParamType::spec_from_program_value((b[149] >> 4u8) & 0x03) == Ok::<UserParamType, Error>(p.user_param3_type),
        UserParamType::spec_from_program_value((b[149] >> 6u8) & 0x03) == Ok::<UserParamType, Error>(p.user_param4_type),
{
    lemma_ten_bit_read(b[19], b[20]);
    lemma_ten_bit_read(b[24], b[25]);
    lemma_ten_bit_read(b[26], b[27]);
    lemma_ten_bit_read(b[30], b[31]);
    lemma_ten_bit_read(b[32], b[33]);
    lemma_ten_bit_read(b[36], b[37]);
    lemma_ten_bit_read(b[42], b[43]);
    lemma_ten_bit_read(b[44], b[45]);
    lemma_ten_bit_read(b[46], b[47]);
    lemma_ten_bit_read(b[48], b[49]);
    lemma_ten_bit_read(b[50], b[51]);
    lemma_ten_bit_read(b[52], b[53]);
    lemma_ten_bit_read(b[54], b[55]);
    lemma_ten_bit_read(b[56], b[57]);
    lemma_ten_bit_read(b[58], b[59]);
    lemma_ten_bit_read(b[60], b[61]);
    lemma_ten_bit_read(b[62], b[63]);
    lemma_ten_bit_read(b[66], b[67]);
    lemma_ten_bit_read(b[68], b[69]);
    lemma_ten_bit_read(b[70], b[71]);
    lemma_ten_bit_read(b[72], b[73]);
    lemma_ten_bit_read(b[74], b[75]);
    lemma_ten_bit_read(b[76], b[77]);
    lemma_ten_bit_read(b[78], b[79]);
    lemma_ten_bit_read(b[83], b[84]);
    lemma_ten_bit_read(b[85], b[86]);
    lemma_ten_bit_read(b[95], b[96]);
    lemma_ten_bit_read(b[97], b[98]);
    lemma_ten_bit_read(b[101], b[102]);
    lemma_ten_bit_read(b[103], b[104]);
    lemma_ten_bit_read(b[107], b[108]);
    lemma_ten_bit_read(b[109], b[110]);
    lemma_ten_bit_read(b[151], b[152]);
    lemma_ten_bit_read(b[153], b[154]);
}

/// The layout of the synth block that [`SynthParams::to_bytes`] writes
/// (over the zero block, or any 156-byte base): each field at the offset
/// that [`lemma_synth_read_layout`] reads it from.
pub proof fn lemma_synth_write_layout(p: SynthParams, base: Seq<u8>)
    requires
        base.len() == 156,
    ensures
        synth_bytes(p, base).subrange(4, 16) == p.name.bytes_of(),
        synth_bytes(p, base)[16] == p.octave,
        synth_bytes(p, base)[17] == p.portamento,
        (synth_bytes(p, base)[18] != 0) == p.key_trig,
        synth_bytes(p, base)[19] == (p.voice_mode_depth & 0xFF) as u8 && synth_bytes(p, base)[20] & 3 == ((p.voice_mode_depth >> 8u16) & 3) as u8,
        synth_bytes(p, base)[21] == p.voice_mode_type,
        synth_bytes(p, base)[22] == p.vco1_wave.spec_program_value(),
        synth_bytes(p, base)[23] == p.vco1_octave.spec_program_value(),
        synth_bytes(p, base)[24] == (p.vco1_pitch & 0xFF) as u8 && synth_bytes(p, base)[25] & 3 == ((p.vco1_pitch >> 8u16) & 3) as u8,
        synth_bytes(p, base)[26] == (p.vco1_shape & 0xFF) as u8 && synth_bytes(p, base)[27] & 3 == ((p.vco1_shape >> 8u16) & 3) as u8,
        synth_bytes(p, base)[28] == p.vco2_wave.spec_program_value(),
        synth_bytes(p, base)[29] == p.vco2_octave.spec_program_value(),
        synth_bytes(p, base)[30] == (p.vco2_pitch & 0xFF) as u8 && synth_bytes(p, base)[31] & 3 == ((p.vco2_pitch >> 8u16) & 3) as u8,
        synth_bytes(p, base)[32] == (p.vco2_shape & 0xFF) as u8 && synth_bytes(p, base)[33] & 3 == ((p.vco2_shape >> 8u16) & 3) as u8,
        (synth_bytes(p, base)[34] == 0) == p.sync,
        (synth_bytes(p, base)[35] == 0) == p.ring,
        synth_bytes(p, base)[36] == (p.cross_mod_depth & 0xFF) as u8 && synth_bytes(p, base)[37] & 3 == ((p.cross_mod_depth >> 8u16) & 3) as u8,
        synth_bytes(p, base)[38] == p.multi_type.spec_program_value(),
        synth_bytes(p, base)[39] == p.select_noise.spec_program_value(),
        synth_bytes(p, base)[40] == p.select_vpm,
        synth_bytes(p, base)[41] == p.select_user,
        synth_bytes(p, base)[42] == (p.shape_noise & 0xFF) as u8 && synth_bytes(p, base)[43] & 3 == ((p.shape_noise >> 8u16) & 3) as u8,
        synth_bytes(p, base)[44] == (p.shape_vpm & 0xFF) as u8 && synth_bytes(p, base)[45] & 3 == ((p.shape_vpm >> 8u16) & 3) as u8,
        synth_bytes(p, base)[46] == (p.shape_user & 0xFF) as u8 && synth_bytes(p, base)[47] & 3 == ((p.shape_user >> 8u16) & 3) as u8,
        synth_bytes(p, base)[48] == (p.shift_shape_noise & 0xFF) as u8 && synth_bytes(p, base)[49] & 3 == ((p.shift_shape_noise >> 8u16) & 3) as u8,
        synth_bytes(p, base)[50] == (p.shift_shape_vpm & 0xFF) as u8 && synth_bytes(p, base)[51] & 3 == ((p.shift_shape_vpm >> 8u16) & 3) as u8,
        synth_bytes(p, base)[52] == (p.shift_shape_user & 0xFF) as u8 && synth_bytes(p, base)[53] & 3 == ((p.shift_shape_user >> 8u16) & 3) as u8,
        synth_bytes(p, base)[54] == (p.vco1_level & 0xFF) as u8 && synth_bytes(p, base)[55] & 3 == ((p.vco1_level >> 8u16) & 3) as u8,
        synth_bytes(p, base)[56] == (p.vco2_level & 0xFF) as u8 && synth_bytes(p, base)[57] & 3 == ((p.vco2_level >> 8u16) & 3) as u8,
        synth_bytes(p, base)[58] == (p.multi_level & 0xFF) as u8 && synth_bytes(p, base)[59] & 3 == ((p.multi_level >> 8u16) & 3) as u8,
        synth_bytes(p, base)[60] == (p.cutoff & 0xFF) as u8 && synth_bytes(p, base)[61] & 3 == ((p.cutoff >> 8u16) & 3) as u8,
        synth_bytes(p, base)[62] == (p.resonance & 0xFF) as u8 && synth_bytes(p, base)[63] & 3 == ((p.resonance >> 8u16) & 3) as u8,
        synth_bytes(p, base)[64] == p.cutoff_drive.spec_program_value(),
        synth_bytes(p, base)[65] == p.cutoff_keytrack.spec_program_value(),
        synth_bytes(p, base)[66] == (p.amp_eg_attack & 0xFF) as u8 && synth_bytes(p, base)[67] & 3 == ((p.amp_eg_attack >> 8u16) & 3) as u8,
        synth_bytes(p, base)[68] == (p.amp_eg_decay & 0xFF) as u8 && synth_bytes(p, base)[69] & 3 == ((p.amp_eg_decay >> 8u16) & 3) as u8,
        synth_bytes(p, base)[70] == (p.amp_eg_sustain & 0xFF) as u8 && synth_bytes(p, base)[71] & 3 == ((p.amp_eg_sustain >> 8u16) & 3) as u8,
        synth_bytes(p, base)[72] == (p.amp_eg_release & 0xFF) as u8 && synth_bytes(p, base)[73] & 3 == ((p.amp_eg_release >> 8u16) & 3) as u8,
        synth_bytes(p, base)[74] == (p.eg_attack & 0xFF) as u8 && synth_bytes(p, base)[75] & 3 == ((p.eg_attack >> 8u16) & 3) as u8,
        synth_bytes(p, base)[76] == (p.eg_decay & 0xFF) as u8 && synth_bytes(p, base)[77] & 3 == ((p.eg_decay >> 8u16) & 3) as u8,
        synth_bytes(p, base)[78] == (p.eg_int & 0xFF) as u8 && synth_bytes(p, base)[79] & 3 == ((p.eg_int >> 8u16) & 3) as u8,
        synth_bytes(p, base)[80] == p.eg_target.spec_program_value(),
        synth_bytes(p, base)[81] == p.lfo_wave.spec_program_value(),
        synth_bytes(p, base)[82] == p.lfo_mode.spec_program_value(),
        synth_bytes(p, base)[83] == (p.lfo_rate & 0xFF) as u8 && synth_bytes(p, base)[84] & 3 == ((p.lfo_rate >> 8u16) & 3) as u8,
        synth_bytes(p, base)[85] == (p.lfo_int & 0xFF) as u8 && synth_bytes(p, base)[86] & 3 == ((p.lfo_int >> 8u16) & 3) as u8,
        synth_bytes(p, base)[87] == p.lfo_target.spec_program_value(),
        (synth_bytes(p, base)[88] != 0) == p.mod_fx_on,
        synth_bytes(p, base)[89] == p.mod_fx_type,
        synth_bytes(p, base)[90] == p.mod_fx_chorus,
        synth_bytes(p, base)[91] == p.mod_fx_ensemble,
        synth_bytes(p, base)[92] == p.mod_fx_phaser,
        synth_bytes(p, base)[93] == p.mod_fx_flanger,
        synth_bytes(p, base)[94] == p.mod_fx_user,
        synth_bytes(p, base)[95] == (p.mod_fx_time & 0xFF) as u8 && synth_bytes(p, base)[96] & 3 == ((p.mod_fx_time >> 8u16) & 3) as u8,
        synth_bytes(p, base)[97] == (p.mod_fx_depth & 0xFF) as u8 && synth_bytes(p, base)[98] & 3 == ((p.mod_fx_depth >> 8u16) & 3) as u8,
        (synth_bytes(p, base)[99] != 0) == p.delay_on,
        synth_bytes(p, base)[100] == p.delay_sub_type.spec_program_value(),
        synth_bytes(p, base)[101] == (p.delay_time & 0xFF) as u8 && synth_bytes(p, base)[102] & 3 == ((p.delay_time >> 8u16) & 3) as u8,
        synth_bytes(p, base)[103] == (p.delay_depth & 0xFF) as u8 && synth_bytes(p, base)[104] & 3 == ((p.delay_depth >> 8u16) & 3) as u8,
        (synth_bytes(p, base)[105] != 0) == p.reverb_on,
        synth_bytes(p, base)[106] == p.reverb_sub_type.spec_program_value(),
        synth_bytes(p, base)[107] == (p.reverb_time & 0xFF) as u8 && synth_bytes(p, base)[108] & 3 == ((p.reverb_time >> 8u16) & 3) as u8,
        synth_bytes(p, base)[109] == (p.reverb_depth & 0xFF) as u8 && synth_bytes(p, base)[110] & 3 == ((p.reverb_depth >> 8u16) & 3) as u8,
        synth_bytes(p, base)[111] == p.bend_range_plus,
        synth_bytes(p, base)[112] == p.bend_range_minus,
        synth_bytes(p, base)[113] == p.joystick_assign_plus.spec_program_value(),
        synth_bytes(p, base)[114] == p.joystick_range_plus,
        synth_bytes(p, base)[115] == p.joystick_assign_minus.spec_program_value(),
        synth_bytes(p, base)[116] == p.joystick_range_minus,
        synth_bytes(p, base)[117] == p.cv_in_mode.spec_program_value(),
        synth_bytes(p, base)[118] == p.cv_in1_assign.spec_program_value(),
        synth_bytes(p, base)[119] == p.cv_in1_range,
        synth_bytes(p, base)[120] == p.cv_in2_assign.spec_program_value(),
        synth_bytes(p, base)[121] == p.cv_in2_range,
        synth_bytes(p, base)[122] == p.micro_tuning,
        synth_bytes(p, base)[123] == p.scale_key,
        synth_bytes(p, base)[124] == p.program_tuning,
        (synth_bytes(p, base)[125] != 0) == p.lfo_key_sync,
        (synth_bytes(p, base)[126] != 0) == p.lfo_voice_sync,
        synth_bytes(p, base)[127] == p.lfo_target_osc.spec_program_value(),
        synth_bytes(p, base)[128] == p.cutoff_velocity,
        synth_bytes(p, base)[129] == p.amp_velocity,
        synth_bytes(p, base)[130] == p.multi_octave.spec_program_value(),
        synth_bytes(p, base)[131] == p.multi_routing.spec_program_value(),
        (synth_bytes(p, base)[132] != 0) == p.eg_legato,
        synth_bytes(p, base)[133] == p.portamento_mode.spec_program_value(),
        (synth_bytes(p, base)[134] != 0) == p.portamento_bpm_sync,
        synth_bytes(p, base)[135] == p.program_level,
        synth_bytes(p, base)[136] == p.vpm_param1,
        synth_bytes(p, base)[137] == p.vpm_param2,
        synth_bytes(p, base)[138] == p.vpm_param3,
        synth_bytes(p, base)[139] == p.vpm_param4,
        synth_bytes(p, base)[140] == p.vpm_param5,
        synth_bytes(p, base)[141] == p.vpm_param6,
        synth_bytes(p, base)[142] == p.user_param1,
        synth_bytes(p, base)[143] == p.user_param2,
        synth_bytes(p, base)[144] == p.user_param3,
        synth_bytes(p, base)[145] == p.user_param4,
        synth_bytes(p, base)[146] == p.user_param5,
        synth_bytes(p, base)[147] == p.user_param6,
        synth_bytes(p, base)[150] == p.program_transpose,
        synth_bytes(p, base)[151] == (p.delay_dry_wet & 0xFF) as u8 && synth_bytes(p, base)[152] & 3 == ((p.delay_dry_wet >> 8u16) & 3) as u8,
        synth_bytes(p, base)[153] == (p.reverb_dry_wet & 0xFF) as u8 && synth_bytes(p, base)[154] & 3 == ((p.reverb_dry_wet >> 8u16) & 3) as u8,
        synth_bytes(p, base)[155] == p.midi_after_touch_assign.spec_program_value(),
{
    reveal(synth_byte_at);
    lemma_ten_bit_write(base[20], p.voice_mode_depth);
    lemma_ten_bit_write(base[25], p.vco1_pitch);
    lemma_ten_bit_write(base[27], p.vco1_shape);
    lemma_ten_bit_write(base[31], p.vco2_pitch);
    lemma_ten_bit_write(base[33], p.vco2_shape);
    lemma_ten_bit_write(base[37], p.cross_mod_depth);
    lemma_ten_bit_write(base[43], p.shape_noise);
    lemma_ten_bit_write(base[45], p.shape_vpm);
    lemma_ten_bit_write(base[47], p.shape_user);
    lemma_ten_bit_write(base[49], p.shift_shape_noise);
    lemma_ten_bit_write(base[51], p.shift_shape_vpm);
    lemma_ten_bit_write(base[53], p.shift_shape_user);
    lemma_ten_bit_write(base[55], p.vco1_level);
    lemma_ten_bit_write(base[57], p.vco2_level);
    lemma_ten_bit_write(base[59], p.multi_level);
    lemma_ten_bit_write(base[61], p.cutoff);
    lemma_ten_bit_write(base[63], p.resonance);
    lemma_ten_bit_write(base[67], p.amp_eg_attack);
    lemma_ten_bit_write(base[69], p.amp_eg_decay);
    lemma_ten_bit_write(base[71], p.amp_eg_sustain);
    lemma_ten_bit_write(base[73], p.amp_eg_release);
    lemma_ten_bit_write(base[75], p.eg_attack);
    lemma_ten_bit_write(base[77], p.eg_decay);
    lemma_ten_bit_write(base[79], p.eg_int);
    lemma_ten_bit_write(base[84], p.lfo_rate);
    lemma_ten_bit_write(base[86], p.lfo_int);
    lemma_ten_bit_write(base[96], p.mod_fx_time);
    lemma_ten_bit_write(base[98], p.mod_fx_depth);
    lemma_ten_bit_write(base[102], p.delay_time);
    lemma_ten_bit_write(base[104], p.delay_depth);
    lemma_ten_bit_write(base[108], p.reverb_time);
    lemma_ten_bit_write(base[110], p.reverb_depth);
    lemma_ten_bit_write(base[152], p.delay_dry_wet);
    lemma_ten_bit_write(base[154], p.reverb_dry_wet);
    assert(synth_bytes(p, base).subrange(4, 16) =~= p.name.bytes_of());
}


/// The program-name character set, byte by byte: exactly the 78 bytes of
/// `` !#$%&'()*,-./0123456789:?ABCDEFGHIJKLMNOPQRSTUVWXYZabcdefghijklmnopqrstuvwxyz``
/// (so not `"`, `+`, `;`, `@`, `_` and the like), which
/// [`is_valid_name_byte`], [`ProgramName::new`] and
/// [`ProgramName::from_string`] accept and nothing else.
pub proof fn lemma_name_charset(b: u8)
    ensures
        is_name_byte(b) <==> (
        b == 0x20 || b == 0x21 || b == 0x23 || b == 0x24 || b == 0x25 || b == 0x26 || b == 0x27 ||
            b == 0x28 || b == 0x29 || b == 0x2A || b == 0x2C || b == 0x2D || b == 0x2E || b == 0x2F ||
            b == 0x30 || b == 0x31 || b == 0x32 || b == 0x33 || b == 0x34 || b == 0x35 || b == 0x36 ||
            b == 0x37 || b == 0x38 || b == 0x39 || b == 0x3A || b == 0x3F || b == 0x41 || b == 0x42 ||
            b == 0x43 || b == 0x44 || b == 0x45 || b == 0x46 || b == 0x47 || b == 0x48 || b == 0x49 ||
            b == 0x4A || b == 0x4B || b == 0x4C || b == 0x4D || b == 0x4E || b == 0x4F || b == 0x50 ||
            b == 0x51 || b == 0x52 || b == 0x53 || b == 0x54 || b == 0x55 || b == 0x56 || b == 0x57 ||
            b == 0x58 || b == 0x59 || b == 0x5A || b == 0x61 || b == 0x62 || b == 0x63 || b == 0x64 ||
            b == 0x65 || b == 0x66 || b == 0x67 || b == 0x68 || b == 0x69 || b == 0x6A || b == 0x6B ||
            b == 0x6C || b == 0x6D || b == 0x6E || b == 0x6F || b == 0x70 || b == 0x71 || b == 0x72 ||
            b == 0x73 || b == 0x74 || b == 0x75 || b == 0x76 || b == 0x77 || b == 0x78 || b == 0x79 ||
            b == 0x7A
        ),
{
}

} // verus!
