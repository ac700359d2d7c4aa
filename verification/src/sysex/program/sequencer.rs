//! Sequencer parameters of the program blob (offsets 156--1023): tempo and
//! step settings, motion slots, the 16 step events and the arpeggiator.
//!
//! Offsets below are relative to the start of the sequencer block:
//!
//! ```text
//!   0-5:    reserved
//!   6-7:    BPM x 10 (LE u16)
//!   8-11:   step length, step resolution, swing, default gate time
//!   12-17:  active steps, steps on, motion on (LE u16 bitfields)
//!   18-25:  motion slot parameter IDs (4 x LE u16)
//!   26-33:  motion slot step enables (4 x LE u16)
//!   34-865: 16 step events of 52 bytes
//!   866:    arpeggiator gate time
//!   867:    arpeggiator rate
//! ```

use vstd::prelude::*;

use crate::error::{Error, SysexError};
use crate::sysex::helpers::read_u16_le;

verus! {

// ---------------------------------------------------------------------------
// MotionSlotConfig
// ---------------------------------------------------------------------------

/// Configuration of one motion sequence slot: the parameter it moves.
#[derive(Debug, Clone, Copy, PartialEq, Eq, Structural)]
pub struct MotionSlotConfig {
    /// Raw motion parameter ID.
    pub parameter_id: u16,
}

impl Default for MotionSlotConfig {
    /// Parameter ID 0.
    fn default() -> (c: Self)
        ensures
            c.parameter_id == 0,
    {
        MotionSlotConfig { parameter_id: 0 }
    }
}

// ---------------------------------------------------------------------------
// StepEvent
// ---------------------------------------------------------------------------

/// One step of the 16-step sequencer: up to 8 notes with their velocities
/// and gate times, and motion data for the 4 motion slots.
#[derive(Debug, Clone, Copy, Eq)]
pub struct StepEvent {
    /// MIDI note numbers of up to 8 notes (0 = unused).
    pub notes: [u8; 8],
    /// Velocity of each note (0--127).
    pub velocities: [u8; 8],
    /// Gate time (bits 0--6, 0--72 = 0%--100%) and trigger switch (bit 7).
    pub gate_times: [u8; 8],
    /// Raw motion data: 4 slots of 7 bytes.
    pub motion_data: [[u8; 7]; 4],
}

/// The byte at offset `j` (0--51) of the encoding of `e`: notes, velocities,
/// gate times, then the motion data slot by slot.
pub open spec fn step_byte_at(e: StepEvent, j: int) -> u8 {
    if j < 8 {
        e.notes@[j]
    } else if j < 16 {
        e.velocities@[j - 8]
    } else if j < 24 {
        e.gate_times@[j - 16]
    } else {
        e.motion_data@[(j - 24) / 7]@[(j - 24) % 7]
    }
}

/// The 52 bytes that encode `e`.
pub open spec fn step_bytes(e: StepEvent) -> Seq<u8> {
    Seq::new(52, |j: int| step_byte_at(e, j))
}

/// The byte that [`StepEvent::set_gate_time`] stores for a note: the low 7
/// bits of its length, with bit 7 set for the trigger switch.
pub open spec fn gate_byte(gate: u8, trigger: bool) -> u8 {
    (gate & 0x7F) | (if trigger { 0x80u8 } else { 0u8 })
}

/// Two step events with the same encoding are the same event.
pub proof fn lemma_step_bytes_determine(a: StepEvent, b: StepEvent)
    requires
        step_bytes(a) == step_bytes(b),
    ensures
        a == b,
{
    assert forall|j: int| 0 <= j < 52 implies #[trigger] step_byte_at(a, j) == step_byte_at(b, j) by {
        assert(step_bytes(a)[j] == step_byte_at(a, j));
        assert(step_bytes(b)[j] == step_byte_at(b, j));
    }
    assert forall|j: int| 0 <= j < 8 implies a.notes@[j] == b.notes@[j] by {
        assert(step_byte_at(a, j) == step_byte_at(b, j));
    }
    assert forall|j: int| 0 <= j < 8 implies a.velocities@[j] == b.velocities@[j] by {
        assert(step_byte_at(a, j + 8) == step_byte_at(b, j + 8));
    }
    assert forall|j: int| 0 <= j < 8 implies a.gate_times@[j] == b.gate_times@[j] by {
        assert(step_byte_at(a, j + 16) == step_byte_at(b, j + 16));
    }
    assert forall|k: int| 0 <= k < 4 implies a.motion_data@[k] == b.motion_data@[k] by {
        assert forall|m: int| 0 <= m < 7 implies a.motion_data@[k]@[m] == b.motion_data@[k]@[m] by {
            let j = 24 + 7 * k + m;
            assert((j - 24) / 7 == k && (j - 24) % 7 == m);
            assert(step_byte_at(a, j) == step_byte_at(b, j));
        }
        assert(a.motion_data@[k] =~= b.motion_data@[k]);
    }
    assert(a.notes =~= b.notes);
    assert(a.velocities =~= b.velocities);
    assert(a.gate_times =~= b.gate_times);
    assert(a.motion_data =~= b.motion_data);
}

/// The note length and the trigger switch read back what
/// [`StepEvent::set_gate_time`] stored.
pub proof fn lemma_gate_byte(gate: u8, trigger: bool)
    ensures
        gate_byte(gate, trigger) & 0x7F == gate & 0x7F,
        (gate_byte(gate, trigger) & 0x80 != 0) == trigger,
{
    assert(((gate & 0x7F) | 0x80u8) & 0x7F == gate & 0x7F && ((gate & 0x7F) | 0u8) & 0x7F == gate & 0x7F && (((gate & 0x7F)
        | 0x80u8) & 0x80) != 0 && (((gate & 0x7F) | 0u8) & 0x80) == 0) by (bit_vector);
}

/// The step event encoded by the 52 bytes at `off`.
fn step_at(bytes: &[u8], off: usize) -> (e: StepEvent)
    requires
        off + 52 <= bytes@.len(),
    ensures
        step_bytes(e) == bytes@.subrange(off as int, off + 52),
{
    let n = bytes.len();
    let mut notes = [0u8; 8];
    let mut velocities = [0u8; 8];
    let mut gate_times = [0u8; 8];
    let mut j: usize = 0;
    while j < 8
        invariant
            j <= 8,
            off + 52 <= bytes@.len(),
            n == bytes@.len(),
            forall|m: int| 0 <= m < j ==> #[trigger] notes@[m] == bytes@[off + m],
            forall|m: int| 0 <= m < j ==> #[trigger] velocities@[m] == bytes@[off + 8 + m],
            forall|m: int| 0 <= m < j ==> #[trigger] gate_times@[m] == bytes@[off + 16 + m],
        decreases 8 - j,
    {
        notes[j] = bytes[off + j];
        velocities[j] = bytes[off + 8 + j];
        gate_times[j] = bytes[off + 16 + j];
        j = j + 1;
    }
    let mut motion_data = [[0u8; 7]; 4];
    let mut k: usize = 0;
    while k < 4
        invariant
            k <= 4,
            off + 52 <= bytes@.len(),
            n == bytes@.len(),
            forall|a: int, m: int|
                0 <= a < k && 0 <= m < 7 ==> #[trigger] motion_data@[a]@[m] == bytes@[off + 24 + 7 * a + m],
        decreases 4 - k,
    {
        let mut slot = [0u8; 7];
        let mut m: usize = 0;
        while m < 7
            invariant
                m <= 7,
                k < 4,
                off + 52 <= bytes@.len(),
                n == bytes@.len(),
                forall|c: int| 0 <= c < m ==> #[trigger] slot@[c] == bytes@[off + 24 + 7 * k + c],
            decreases 7 - m,
        {
            slot[m] = bytes[off + 24 + 7 * k + m];
            m = m + 1;
        }
        motion_data[k] = slot;
        k = k + 1;
    }
    let e = StepEvent { notes, velocities, gate_times, motion_data };
    assert forall|j: int| 0 <= j < 52 implies #[trigger] step_bytes(e)[j] == bytes@.subrange(off as int, off + 52)[j] by {
        if j >= 24 {
            let a = (j - 24) / 7;
            let m = (j - 24) % 7;
            assert(j == off + 24 + 7 * a + m - off);
            assert(motion_data@[a]@[m] == bytes@[off + 24 + 7 * a + m]);
        }
    }
    assert(step_bytes(e) =~= bytes@.subrange(off as int, off + 52));
    e
}

impl StepEvent {
    /// Size of a step event in bytes.
    pub const SIZE: usize = 52;

    /// An empty step: every byte zero.
    pub fn zeroed() -> (e: Self)
        ensures
            step_bytes(e) == Seq::new(52, |j: int| 0u8),
    {
        let e = StepEvent { notes: [0u8; 8], velocities: [0u8; 8], gate_times: [0u8; 8], motion_data: [[0u8; 7]; 4] };
        assert(step_bytes(e) =~= Seq::new(52, |j: int| 0u8));
        e
    }

    /// Parse a step event from the first 52 bytes of `bytes`; fails when
    /// fewer are given.
    pub fn from_bytes(bytes: &[u8]) -> (r: Result<Self, Error>)
        ensures
            bytes@.len() < 52 ==> r == Err::<Self, Error>(
                Error::Sysex(SysexError::PayloadTooShort { expected: 52, actual: bytes@.len() as usize }),
            ),
            bytes@.len() >= 52 ==> (r matches Ok(e) && step_bytes(e) == bytes@.subrange(0, 52)),
    {
        if bytes.len() < Self::SIZE {
            return Err(Error::Sysex(SysexError::PayloadTooShort { expected: Self::SIZE, actual: bytes.len() }));
        }
        Ok(step_at(bytes, 0))
    }

    /// Append the 52 bytes of this step to `out`.
    pub fn write_to(&self, out: &mut Vec<u8>)
        ensures
            final(out)@ == old(out)@ + step_bytes(*self),
    {
        let ghost start = out@;
        let mut j: usize = 0;
        while j < 52
            invariant
                j <= 52,
                out@ == start + step_bytes(*self).take(j as int),
            decreases 52 - j,
        {
            let b = if j < 8 {
                self.notes[j]
            } else if j < 16 {
                self.velocities[j - 8]
            } else if j < 24 {
                self.gate_times[j - 16]
            } else {
                self.motion_data[(j - 24) / 7][(j - 24) % 7]
            };
            out.push(b);
            assert(step_bytes(*self).take(j + 1) =~= step_bytes(*self).take(j as int).push(b));
            j = j + 1;
        }
        assert(step_bytes(*self).take(52) =~= step_bytes(*self));
    }

    /// The length of note `n` (bits 0--6 of its byte in `gate_times`).
    pub fn gate_time(&self, n: usize) -> (g: u8)
        requires
            n < 8,
        ensures
            g == self.gate_times@[n as int] & 0x7F,
    {
        self.gate_times[n] & 0x7F
    }

    /// Whether the trigger switch (bit 7) of note `n` is set.
    pub fn trigger_switch(&self, n: usize) -> (t: bool)
        requires
            n < 8,
        ensures
            t == (self.gate_times@[n as int] & 0x80 != 0),
    {
        self.gate_times[n] & 0x80 != 0
    }

    /// Set the length (the low 7 bits of `gate`) and the trigger switch of
    /// note `n`; everything else is kept.
    pub fn set_gate_time(&mut self, n: usize, gate: u8, trigger: bool)
        requires
            n < 8,
        ensures
            final(self).gate_times@ == old(self).gate_times@.update(n as int, gate_byte(gate, trigger)),
            final(self).notes == old(self).notes,
            final(self).velocities == old(self).velocities,
            final(self).motion_data == old(self).motion_data,
    {
        let t: u8 = if trigger { 0x80 } else { 0 };
        self.gate_times[n] = (gate & 0x7F) | t;
    }
}

impl Default for StepEvent {
    /// An empty step: every byte zero.
    fn default() -> (e: Self)
        ensures
            step_bytes(e) == Seq::new(52, |j: int| 0u8),
    {
        Self::zeroed()
    }
}

// ---------------------------------------------------------------------------
// SequencerParams
// ---------------------------------------------------------------------------

/// Sequencer parameters from offsets 156--1023 of the program blob.
#[derive(Debug, Clone)]
pub struct SequencerParams {
    /// BPM x 10 (100 = 10.0 BPM, 3000 = 300.0 BPM), stored as LE u16.
    pub bpm: u16,
    /// Number of active steps (1--16).
    pub step_length: u8,
    /// Step resolution (0--4).
    pub step_resolution: u8,
    /// Swing, stored with a +75 offset (0 = -75, 75 = 0, 150 = +75).
    pub swing: u8,
    /// Default gate time (0--72 = 0%--100%).
    pub default_gate_time: u8,
    /// Bitfield of the active steps (bit N = step N).
    pub active_steps: u16,
    /// Bitfield of the steps that are on.
    pub steps_on: u16,
    /// Bitfield of the steps with motion enabled.
    pub motion_on: u16,
    /// The 4 motion sequence slots.
    pub motion_slots: [MotionSlotConfig; 4],
    /// Per-slot step enable bitfields.
    pub motion_slot_steps: [u16; 4],
    /// The 16 step events.
    pub steps: [StepEvent; 16],
    /// Arpeggiator gate time (0--72).
    pub arp_gate_time: u8,
    /// Arpeggiator rate (0--10).
    pub arp_rate: u8,
}

/// The low byte of the little-endian encoding of `v`.
pub open spec fn le_low(v: u16) -> u8 {
    (v % 256) as u8
}

/// The high byte of the little-endian encoding of `v`.
pub open spec fn le_high(v: u16) -> u8 {
    (v / 256) as u8
}

/// The byte at offset `i` (0--867) of the sequencer block that `p` writes
/// over `base`; the 6 reserved bytes come from `base`.
pub open spec fn seq_byte_at(p: SequencerParams, base: Seq<u8>, i: int) -> u8 {
    if i < 6 {
        base[i]
    } else if i == 6 {
        le_low(p.bpm)
    } else if i == 7 {
        le_high(p.bpm)
    } else if i == 8 {
        p.step_length
    } else if i == 9 {
        p.step_resolution
    } else if i == 10 {
        p.swing
    } else if i == 11 {
        p.default_gate_time
    } else if i == 12 {
        le_low(p.active_steps)
    } else if i == 13 {
        le_high(p.active_steps)
    } else if i == 14 {
        le_low(p.steps_on)
    } else if i == 15 {
        le_high(p.steps_on)
    } else if i == 16 {
        le_low(p.motion_on)
    } else if i == 17 {
        le_high(p.motion_on)
    } else if i < 26 {
        if (i - 18) % 2 == 0 {
            le_low(p.motion_slots@[(i - 18) / 2].parameter_id)
        } else {
            le_high(p.motion_slots@[(i - 18) / 2].parameter_id)
        }
    } else if i < 34 {
        if (i - 26) % 2 == 0 {
            le_low(p.motion_slot_steps@[(i - 26) / 2])
        } else {
            le_high(p.motion_slot_steps@[(i - 26) / 2])
        }
    } else if i < 866 {
        step_byte_at(p.steps@[(i - 34) / 52], (i - 34) % 52)
    } else if i == 866 {
        p.arp_gate_time
    } else {
        p.arp_rate
    }
}

/// The 868-byte sequencer block that `p` writes over `base`.
pub open spec fn seq_bytes(p: SequencerParams, base: Seq<u8>) -> Seq<u8> {
    Seq::new(868, |i: int| seq_byte_at(p, base, i))
}

/// The zero block that [`SequencerParams::to_bytes`] writes over.
pub open spec fn zero_seq_block() -> Seq<u8> {
    Seq::new(868, |i: int| 0u8)
}

/// What [`SequencerParams::from_bytes`] returns for `b`: too short, or the
/// parameters that, written over the block, give the block back.
pub open spec fn seq_parses_as(b: Seq<u8>, r: Result<SequencerParams, Error>) -> bool {
    match r {
        Ok(p) => b.len() >= 868 && seq_bytes(p, b.subrange(0, 868)) == b.subrange(0, 868),
        Err(e) => b.len() < 868 && e == Error::Sysex(SysexError::PayloadTooShort { expected: 868, actual: b.len() as usize }),
    }
}

/// The two bytes of a little-endian `u16` read back as that value.
proof fn lemma_le_bytes(v: u16, w: u16)
    ensures
        le_low(v) + le_high(v) * 256 == v,
        le_low(v) == le_low(w) && le_high(v) == le_high(w) ==> v == w,
{
}

/// Parameters are determined by the bytes they write outside the reserved
/// ones.
pub proof fn lemma_seq_bytes_determine(p: SequencerParams, q: SequencerParams, b1: Seq<u8>, b2: Seq<u8>)
    requires
        forall|i: int| 6 <= i < 868 ==> #[trigger] seq_byte_at(p, b1, i) == seq_byte_at(q, b2, i),
    ensures
        p == q,
{
    assert(seq_byte_at(p, b1, 6) == seq_byte_at(q, b2, 6) && seq_byte_at(p, b1, 7) == seq_byte_at(q, b2, 7));
    lemma_le_bytes(p.bpm, q.bpm);
    assert(seq_byte_at(p, b1, 12) == seq_byte_at(q, b2, 12) && seq_byte_at(p, b1, 13) == seq_byte_at(q, b2, 13));
    lemma_le_bytes(p.active_steps, q.active_steps);
    assert(seq_byte_at(p, b1, 14) == seq_byte_at(q, b2, 14) && seq_byte_at(p, b1, 15) == seq_byte_at(q, b2, 15));
    lemma_le_bytes(p.steps_on, q.steps_on);
    assert(seq_byte_at(p, b1, 16) == seq_byte_at(q, b2, 16) && seq_byte_at(p, b1, 17) == seq_byte_at(q, b2, 17));
    lemma_le_bytes(p.motion_on, q.motion_on);
    assert(seq_byte_at(p, b1, 8) == seq_byte_at(q, b2, 8) && seq_byte_at(p, b1, 9) == seq_byte_at(q, b2, 9));
    assert(seq_byte_at(p, b1, 10) == seq_byte_at(q, b2, 10) && seq_byte_at(p, b1, 11) == seq_byte_at(q, b2, 11));
    assert(seq_byte_at(p, b1, 866) == seq_byte_at(q, b2, 866) && seq_byte_at(p, b1, 867) == seq_byte_at(q, b2, 867));
    assert forall|k: int| 0 <= k < 4 implies p.motion_slots@[k] == q.motion_slots@[k] by {
        assert(seq_byte_at(p, b1, 18 + 2 * k) == seq_byte_at(q, b2, 18 + 2 * k));
        assert(seq_byte_at(p, b1, 19 + 2 * k) == seq_byte_at(q, b2, 19 + 2 * k));
        assert((18 + 2 * k - 18) / 2 == k && (19 + 2 * k - 18) / 2 == k);
        assert((18 + 2 * k - 18) % 2 == 0 && (19 + 2 * k - 18) % 2 == 1);
        lemma_le_bytes(p.motion_slots@[k].parameter_id, q.motion_slots@[k].parameter_id);
    }
    assert forall|k: int| 0 <= k < 4 implies p.motion_slot_steps@[k] == q.motion_slot_steps@[k] by {
        assert(seq_byte_at(p, b1, 26 + 2 * k) == seq_byte_at(q, b2, 26 + 2 * k));
        assert(seq_byte_at(p, b1, 27 + 2 * k) == seq_byte_at(q, b2, 27 + 2 * k));
        assert((26 + 2 * k - 26) / 2 == k && (27 + 2 * k - 26) / 2 == k);
        assert((26 + 2 * k - 26) % 2 == 0 && (27 + 2 * k - 26) % 2 == 1);
        lemma_le_bytes(p.motion_slot_steps@[k], q.motion_slot_steps@[k]);
    }
    assert forall|k: int| 0 <= k < 16 implies p.steps@[k] == q.steps@[k] by {
        assert forall|j: int| 0 <= j < 52 implies #[trigger] step_bytes(p.steps@[k])[j] == step_bytes(q.steps@[k])[j] by {
            let i = 34 + 52 * k + j;
            assert((i - 34) / 52 == k && (i - 34) % 52 == j);
            assert(seq_byte_at(p, b1, i) == seq_byte_at(q, b2, i));
        }
        assert(step_bytes(p.steps@[k]) =~= step_bytes(q.steps@[k]));
        lemma_step_bytes_determine(p.steps@[k], q.steps@[k]);
    }
    assert(p.motion_slots =~= q.motion_slots);
    assert(p.motion_slot_steps =~= q.motion_slot_steps);
    assert(p.steps =~= q.steps);
}

/// The byte at offset `j` (0--51) of the encoding of `e`.
fn step_byte(e: &StepEvent, j: usize) -> (v: u8)
    requires
        j < 52,
    ensures
        v == step_byte_at(*e, j as int),
{
    if j < 8 {
        e.notes[j]
    } else if j < 16 {
        e.velocities[j - 8]
    } else if j < 24 {
        e.gate_times[j - 16]
    } else {
        e.motion_data[(j - 24) / 7][(j - 24) % 7]
    }
}

impl SequencerParams {
    /// Size of the sequencer block in bytes.
    pub const SIZE: usize = 868;

    /// Offset of the sequencer block within the 1024-byte program blob.
    pub const OFFSET: usize = 156;

    /// The byte at offset `i` of the block over `base`.
    fn byte_at(&self, base: &[u8], i: usize) -> (v: u8)
        requires
            i < 868,
            base@.len() >= 6,
        ensures
            v == seq_byte_at(*self, base@, i as int),
    {
        if i < 6 {
            base[i]
        } else if i == 6 {
            (self.bpm % 256) as u8
        } else if i == 7 {
            (self.bpm / 256) as u8
        } else if i == 8 {
            self.step_length
        } else if i == 9 {
            self.step_resolution
        } else if i == 10 {
            self.swing
        } else if i == 11 {
            self.default_gate_time
        } else if i == 12 {
            (self.active_steps % 256) as u8
        } else if i == 13 {
            (self.active_steps / 256) as u8
        } else if i == 14 {
            (self.steps_on % 256) as u8
        } else if i == 15 {
            (self.steps_on / 256) as u8
        } else if i == 16 {
            (self.motion_on % 256) as u8
        } else if i == 17 {
            (self.motion_on / 256) as u8
        } else if i < 26 {
            let id = self.motion_slots[(i - 18) / 2].parameter_id;
            if (i - 18) % 2 == 0 {
                (id % 256) as u8
            } else {
                (id / 256) as u8
            }
        } else if i < 34 {
            let bits = self.motion_slot_steps[(i - 26) / 2];
            if (i - 26) % 2 == 0 {
                (bits % 256) as u8
            } else {
                (bits / 256) as u8
            }
        } else if i < 866 {
            step_byte(&self.steps[(i - 34) / 52], (i - 34) % 52)
        } else if i == 866 {
            self.arp_gate_time
        } else {
            self.arp_rate
        }
    }

    /// Serialize the parameters over `base`: the 6 reserved bytes are taken
    /// from `base`, every other byte comes from the parameters.
    pub fn to_bytes_with_base(&self, base: &[u8]) -> (out: Vec<u8>)
        requires
            base@.len() >= 6,
        ensures
            out@ == seq_bytes(*self, base@),
    {
        let mut out: Vec<u8> = Vec::with_capacity(Self::SIZE);
        let mut i: usize = 0;
        while i < Self::SIZE
            invariant
                i <= 868,
                base@.len() >= 6,
                out@ == seq_bytes(*self, base@).take(i as int),
            decreases 868 - i,
        {
            let b = self.byte_at(base, i);
            out.push(b);
            assert(seq_bytes(*self, base@).take(i + 1) =~= seq_bytes(*self, base@).take(i as int).push(b));
            i = i + 1;
        }
        assert(seq_bytes(*self, base@).take(868) =~= seq_bytes(*self, base@));
        out
    }

    /// Serialize the parameters to 868 bytes, the reserved ones zero.
    pub fn to_bytes(&self) -> (out: Vec<u8>)
        ensures
            out@ == seq_bytes(*self, zero_seq_block()),
    {
        let base = [0u8; 6];
        assert(seq_bytes(*self, base@) =~= seq_bytes(*self, zero_seq_block()));
        self.to_bytes_with_base(&base)
    }

    /// Parse the sequencer block from the first 868 bytes of `bytes`; fails
    /// when fewer are given. Every byte pattern is accepted; the parameters
    /// returned are those that, written back over the block, reproduce it.
    pub fn from_bytes(bytes: &[u8]) -> (r: Result<Self, Error>)
        ensures
            seq_parses_as(bytes@, r),
    {
        let n = bytes.len();
        if n < Self::SIZE {
            return Err(Error::Sysex(SysexError::PayloadTooShort { expected: Self::SIZE, actual: n }));
        }
        let bpm = read_u16_le(bytes, 6);
        let active_steps = read_u16_le(bytes, 12);
        let steps_on = read_u16_le(bytes, 14);
        let motion_on = read_u16_le(bytes, 16);
        let mut motion_slots = [MotionSlotConfig { parameter_id: 0 }; 4];
        let mut motion_slot_steps = [0u16; 4];
        let mut k: usize = 0;
        while k < 4
            invariant
                k <= 4,
                n == bytes@.len(),
                n >= 868,
                forall|a: int|
                    0 <= a < k ==> #[trigger] motion_slots@[a].parameter_id as int == bytes@[18 + 2 * a] + bytes@[19 + 2 * a] * 256,
                forall|a: int|
                    0 <= a < k ==> #[trigger] motion_slot_steps@[a] as int == bytes@[26 + 2 * a] + bytes@[27 + 2 * a] * 256,
            decreases 4 - k,
        {
            motion_slots[k] = MotionSlotConfig { parameter_id: read_u16_le(bytes, 18 + 2 * k) };
            motion_slot_steps[k] = read_u16_le(bytes, 26 + 2 * k);
            k = k + 1;
        }
        let empty = StepEvent::zeroed();
        let mut steps = [empty; 16];
        let mut k: usize = 0;
        while k < 16
            invariant
                k <= 16,
                n == bytes@.len(),
                n >= 868,
                forall|a: int|
                    0 <= a < k ==> #[trigger] step_bytes(steps@[a]) == bytes@.subrange(34 + 52 * a, 86 + 52 * a),
            decreases 16 - k,
        {
            steps[k] = step_at(bytes, 34 + 52 * k);
            k = k + 1;
        }
        let p = SequencerParams {
            bpm,
            step_length: bytes[8],
            step_resolution: bytes[9],
            swing: bytes[10],
            default_gate_time: bytes[11],
            active_steps,
            steps_on,
            motion_on,
            motion_slots,
            motion_slot_steps,
            steps,
            arp_gate_time: bytes[866],
            arp_rate: bytes[867],
        };
        proof {
            let b = bytes@.subrange(0, 868);
            assert forall|i: int| 0 <= i < 868 implies #[trigger] seq_byte_at(p, b, i) == b[i] by {
                if 18 <= i < 26 {
                    let a = (i - 18) / 2;
                    assert(motion_slots@[a].parameter_id as int == bytes@[18 + 2 * a] + bytes@[19 + 2 * a] * 256);
                } else if 26 <= i < 34 {
                    let a = (i - 26) / 2;
                    assert(motion_slot_steps@[a] as int == bytes@[26 + 2 * a] + bytes@[27 + 2 * a] * 256);
                } else if 34 <= i < 866 {
                    let a = (i - 34) / 52;
                    let j = (i - 34) % 52;
                    assert(step_bytes(steps@[a]) == bytes@.subrange(34 + 52 * a, 86 + 52 * a));
                    assert(step_bytes(steps@[a])[j] == step_byte_at(steps@[a], j));
                }
            }
            assert(seq_bytes(p, b) =~= b);
        }
        Ok(p)
    }

    /// The swing as a signed offset: the stored byte minus 75, wrapped to
    /// `i8` (stored values 0--150 give -75--+75).
    pub fn swing_signed(&self) -> (s: i8)
        ensures
            s == ((self.swing as i16 - 75) as i8),
            self.swing <= 202 ==> s as int == self.swing as int - 75,
    {
        (self.swing as i16 - 75) as i8
    }
}

/// `p` holds the sequencer settings of an initialized program: 120.0 BPM,
/// 16 active steps of 1/16, no swing, gate time 54 (~75%), no motion, empty
/// steps, arpeggiator gate 54 at rate 9 (1/8).
pub open spec fn is_default_sequencer(p: SequencerParams) -> bool {
    &&& p.bpm == 1200
    &&& p.step_length == 16
    &&& p.step_resolution == 0
    &&& p.swing == 75
    &&& p.default_gate_time == 54
    &&& p.active_steps == 0xFFFF
    &&& p.steps_on == 0
    &&& p.motion_on == 0
    &&& forall|k: int| 0 <= k < 4 ==> #[trigger] p.motion_slots@[k].parameter_id == 0
    &&& forall|k: int| 0 <= k < 4 ==> #[trigger] p.motion_slot_steps@[k] == 0
    &&& forall|k: int| 0 <= k < 16 ==> #[trigger] step_bytes(p.steps@[k]) == Seq::new(52, |j: int| 0u8)
    &&& p.arp_gate_time == 54
    &&& p.arp_rate == 9
}

impl Default for SequencerParams {
    /// The sequencer settings of an initialized program.
    fn default() -> (p: Self)
        ensures
            is_default_sequencer(p),
    {
        let empty = StepEvent::zeroed();
        SequencerParams {
            bpm: 1200,
            step_length: 16,
            step_resolution: 0,
            swing: 75,
            default_gate_time: 54,
            active_steps: 0xFFFF,
            steps_on: 0,
            motion_on: 0,
            motion_slots: [MotionSlotConfig { parameter_id: 0 }; 4],
            motion_slot_steps: [0u16; 4],
            steps: [empty; 16],
            arp_gate_time: 54,
            arp_rate: 9,
        }
    }
}

impl PartialEq for StepEvent {
    /// Two steps are equal when all their notes, velocities, gate bytes and
    /// motion data are.
    fn eq(&self, other: &Self) -> (r: bool) {
        let mut j: usize = 0;
        while j < 52
            invariant
                j <= 52,
                forall|m: int| 0 <= m < j ==> #[trigger] step_byte_at(*self, m) == step_byte_at(*other, m),
            decreases 52 - j,
        {
            if step_byte(self, j) != step_byte(other, j) {
                return false;
            }
            j = j + 1;
        }
        proof {
            assert(step_bytes(*self) =~= step_bytes(*other));
            lemma_step_bytes_determine(*self, *other);
        }
        true
    }
}

impl vstd::std_specs::cmp::PartialEqSpecImpl for StepEvent {
    open spec fn obeys_eq_spec() -> bool {
        true
    }

    open spec fn eq_spec(&self, other: &StepEvent) -> bool {
        *self == *other
    }
}

impl PartialEq for SequencerParams {
    /// Two parameter sets are equal when all their fields are.
    fn eq(&self, other: &Self) -> (r: bool) {
        let base = [0u8; 6];
        let mut i: usize = 0;
        while i < Self::SIZE
            invariant
                i <= 868,
                base@.len() == 6,
                forall|m: int| 0 <= m < i ==> #[trigger] seq_byte_at(*self, base@, m) == seq_byte_at(*other, base@, m),
            decreases 868 - i,
        {
            if self.byte_at(&base, i) != other.byte_at(&base, i) {
                return false;
            }
            i = i + 1;
        }
        proof {
            lemma_seq_bytes_determine(*self, *other, base@, base@);
        }
        true
    }
}

impl vstd::std_specs::cmp::PartialEqSpecImpl for SequencerParams {
    open spec fn obeys_eq_spec() -> bool {
        true
    }

    open spec fn eq_spec(&self, other: &SequencerParams) -> bool {
        *self == *other
    }
}

/// Reading back the block that parameters write over any base block gives
/// the same parameters.
pub proof fn lemma_seq_round_trip(p: SequencerParams, base: Seq<u8>, r: Result<SequencerParams, Error>)
    requires
        base.len() >= 6,
        seq_parses_as(seq_bytes(p, base), r),
    ensures
        r == Ok::<SequencerParams, Error>(p),
{
    let x = seq_bytes(p, base);
    assert(x.subrange(0, 868) =~= x);
    if let Ok(q) = r {
        assert forall|i: int| 6 <= i < 868 implies #[trigger] seq_byte_at(q, x, i) == seq_byte_at(p, base, i) by {
            assert(seq_bytes(q, x)[i] == x[i]);
        }
        lemma_seq_bytes_determine(q, p, x, base);
    }
}


/// The layout of the sequencer block that [`SequencerParams::to_bytes`]
/// writes (offsets relative to the block, which starts at 156 of the
/// program): the 6 reserved bytes come from the base, then the tempo (BPM
/// times 10) as a little-endian word at 6--7, step length 8, step
/// resolution 9, swing 10, default gate time 11, the active-step, step-on
/// and motion-on masks as little-endian words at 12--17, the 4 motion slot
/// parameter IDs at 18--25 and their step masks at 26--33, the 16 steps of
/// 52 bytes from 34 (8 notes, 8 velocities, 8 gate times, 4 motion slots
/// of 7 bytes), and the arpeggiator gate time and rate at 866 and 867.
pub proof fn lemma_seq_write_layout(p: SequencerParams, base: Seq<u8>)
    requires
        base.len() == 868,
    ensures
        seq_bytes(p, base).len() == 868,
        seq_bytes(p, base)[6] as int + seq_bytes(p, base)[7] as int * 256 == p.bpm as int,
        seq_bytes(p, base)[12] as int + seq_bytes(p, base)[13] as int * 256 == p.active_steps as int,
        seq_bytes(p, base)[14] as int + seq_bytes(p, base)[15] as int * 256 == p.steps_on as int,
        seq_bytes(p, base)[16] as int + seq_bytes(p, base)[17] as int * 256 == p.motion_on as int,
        seq_bytes(p, base)[8] == p.step_length,
        seq_bytes(p, base)[9] == p.step_resolution,
        seq_bytes(p, base)[10] == p.swing,
        seq_bytes(p, base)[11] == p.default_gate_time,
        seq_bytes(p, base)[866] == p.arp_gate_time,
        seq_bytes(p, base)[867] == p.arp_rate,
        forall|k: int| 0 <= k < 4 ==> seq_bytes(p, base)[18 + 2 * k] as int + seq_bytes(p, base)[19 + 2 * k] as int * 256 == (#[trigger] p.motion_slots@[k]).parameter_id as int,
        forall|k: int| 0 <= k < 4 ==> seq_bytes(p, base)[26 + 2 * k] as int + seq_bytes(p, base)[27 + 2 * k] as int * 256 == (#[trigger] p.motion_slot_steps@[k]) as int,
        forall|k: int, j: int| 0 <= k < 16 && 0 <= j < 8 ==> seq_bytes(p, base)[34 + 52 * k + j] == #[trigger] p.steps@[k].notes@[j] && seq_bytes(p, base)[42 + 52 * k + j] == p.steps@[k].velocities@[j] && seq_bytes(p, base)[50 + 52 * k + j] == p.steps@[k].gate_times@[j],
        forall|k: int, m: int, j: int| 0 <= k < 16 && 0 <= m < 4 && 0 <= j < 7 ==> seq_bytes(p, base)[58 + 52 * k + 7 * m + j] == #[trigger] p.steps@[k].motion_data@[m]@[j],
{
    let b = seq_bytes(p, base);
    assert forall|k: int| 0 <= k < 4 implies b[18 + 2 * k] as int + b[19 + 2 * k] as int * 256 == (#[trigger] p.motion_slots@[k]).parameter_id as int by {
        assert((18 + 2 * k - 18) / 2 == k && (19 + 2 * k - 18) / 2 == k);
        assert((18 + 2 * k - 18) % 2 == 0 && (19 + 2 * k - 18) % 2 == 1);
    }
    assert forall|k: int| 0 <= k < 4 implies b[26 + 2 * k] as int + b[27 + 2 * k] as int * 256 == (#[trigger] p.motion_slot_steps@[k]) as int by {
        assert((26 + 2 * k - 26) / 2 == k && (27 + 2 * k - 26) / 2 == k);
        assert((26 + 2 * k - 26) % 2 == 0 && (27 + 2 * k - 26) % 2 == 1);
    }
    assert forall|k: int, j: int| 0 <= k < 16 && 0 <= j < 8 implies b[34 + 52 * k + j] == #[trigger] p.steps@[k].notes@[j] && b[42 + 52 * k + j] == p.steps@[k].velocities@[j] && b[50 + 52 * k + j] == p.steps@[k].gate_times@[j] by {
        assert((34 + 52 * k + j - 34) / 52 == k && (34 + 52 * k + j - 34) % 52 == j) by (nonlinear_arith)
            requires 0 <= j < 8;
        assert((42 + 52 * k + j - 34) / 52 == k && (42 + 52 * k + j - 34) % 52 == j + 8) by (nonlinear_arith)
            requires 0 <= j < 8;
        assert((50 + 52 * k + j - 34) / 52 == k && (50 + 52 * k + j - 34) % 52 == j + 16) by (nonlinear_arith)
            requires 0 <= j < 8;
    }
    assert forall|k: int, m: int, j: int| 0 <= k < 16 && 0 <= m < 4 && 0 <= j < 7 implies b[58 + 52 * k + 7 * m + j] == #[trigger] p.steps@[k].motion_data@[m]@[j] by {
        assert((58 + 52 * k + 7 * m + j - 34) / 52 == k && (58 + 52 * k + 7 * m + j - 34) % 52 == 24 + 7 * m + j) by (nonlinear_arith)
            requires 0 <= j < 7, 0 <= m < 4;
        assert((7 * m + j) / 7 == m && (7 * m + j) % 7 == j) by (nonlinear_arith)
            requires 0 <= j < 7;
        assert(24 + 7 * m + j - 24 == 7 * m + j);
    }
}

/// The layout that [`SequencerParams::from_bytes`] reads: each field from
/// the offset at which [`lemma_seq_write_layout`] writes it.
pub proof fn lemma_seq_read_layout(b: Seq<u8>, p: SequencerParams)
    requires
        seq_parses_as(b, Ok::<SequencerParams, Error>(p)),
    ensures
        b.subrange(0, 868).len() == 868,
        b.subrange(0, 868)[6] as int + b.subrange(0, 868)[7] as int * 256 == p.bpm as int,
        b.subrange(0, 868)[12] as int + b.subrange(0, 868)[13] as int * 256 == p.active_steps as int,
        b.subrange(0, 868)[14] as int + b.subrange(0, 868)[15] as int * 256 == p.steps_on as int,
        b.subrange(0, 868)[16] as int + b.subrange(0, 868)[17] as int * 256 == p.motion_on as int,
        b.subrange(0, 868)[8] == p.step_length,
        b.subrange(0, 868)[9] == p.step_resolution,
        b.subrange(0, 868)[10] == p.swing,
        b.subrange(0, 868)[11] == p.default_gate_time,
        b.subrange(0, 868)[866] == p.arp_gate_time,
        b.subrange(0, 868)[867] == p.arp_rate,
        forall|k: int| 0 <= k < 4 ==> b.subrange(0, 868)[18 + 2 * k] as int + b.subrange(0, 868)[19 + 2 * k] as int * 256 == (#[trigger] p.motion_slots@[k]).parameter_id as int,
        forall|k: int| 0 <= k < 4 ==> b.subrange(0, 868)[26 + 2 * k] as int + b.subrange(0, 868)[27 + 2 * k] as int * 256 == (#[trigger] p.motion_slot_steps@[k]) as int,
        forall|k: int, j: int| 0 <= k < 16 && 0 <= j < 8 ==> b.subrange(0, 868)[34 + 52 * k + j] == #[trigger] p.steps@[k].notes@[j] && b.subrange(0, 868)[42 + 52 * k + j] == p.steps@[k].velocities@[j] && b.subrange(0, 868)[50 + 52 * k + j] == p.steps@[k].gate_times@[j],
        forall|k: int, m: int, j: int| 0 <= k < 16 && 0 <= m < 4 && 0 <= j < 7 ==> b.subrange(0, 868)[58 + 52 * k + 7 * m + j] == #[trigger] p.steps@[k].motion_data@[m]@[j],
{
    lemma_seq_write_layout(p, b.subrange(0, 868));
}

} // verus!
