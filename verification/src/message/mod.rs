//! MIDI messages: range-checked integer types and the messages that a
//! connection sends.

pub mod types;

pub use types::{U4, U7};

use vstd::prelude::*;

verus! {

/// A Note On message.
#[derive(Debug, Clone, Copy, PartialEq, Eq, Structural)]
pub struct NoteOn {
    /// MIDI channel.
    pub channel: U4,
    /// Note number.
    pub key: U7,
    /// Velocity.
    pub velocity: U7,
}

/// A Note Off message.
#[derive(Debug, Clone, Copy, PartialEq, Eq, Structural)]
pub struct NoteOff {
    /// MIDI channel.
    pub channel: U4,
    /// Note number.
    pub key: U7,
    /// Release velocity.
    pub velocity: U7,
}

/// A Control Change message.
#[derive(Debug, Clone, Copy, PartialEq, Eq, Structural)]
pub struct ControlChange {
    /// MIDI channel.
    pub channel: U4,
    /// Controller number.
    pub controller: U7,
    /// Controller value.
    pub value: U7,
}

/// A Program Change message.
#[derive(Debug, Clone, Copy, PartialEq, Eq, Structural)]
pub struct ProgramChange {
    /// MIDI channel.
    pub channel: U4,
    /// Program number.
    pub program: U7,
}

/// The Timing Clock realtime message (`F8`).
#[derive(Debug, Clone, Copy, PartialEq, Eq, Structural)]
pub struct TimingClock;

/// The Start realtime message (`FA`).
#[derive(Debug, Clone, Copy, PartialEq, Eq, Structural)]
pub struct Start;

/// The Continue realtime message (`FB`).
#[derive(Debug, Clone, Copy, PartialEq, Eq, Structural)]
pub struct Continue;

/// The Stop realtime message (`FC`).
#[derive(Debug, Clone, Copy, PartialEq, Eq, Structural)]
pub struct Stop;

/// A MIDI message that a connection can send.
#[derive(Debug, Clone, Copy, PartialEq, Eq, Structural)]
pub enum MidiMessage {
    /// Note Off.
    NoteOff(NoteOff),
    /// Note On.
    NoteOn(NoteOn),
    /// Control Change.
    ControlChange(ControlChange),
    /// Program Change.
    ProgramChange(ProgramChange),
    /// Timing Clock.
    TimingClock(TimingClock),
    /// Start.
    Start(Start),
    /// Continue.
    Continue(Continue),
    /// Stop.
    Stop(Stop),
}

/// The wire bytes of `m`: a status byte with the channel in its low
/// nibble and the data bytes for channel messages, the single status byte
/// for realtime messages.
pub open spec fn midi_bytes(m: MidiMessage) -> Seq<u8> {
    match m {
        MidiMessage::NoteOff(n) => seq![0x80u8 | n.channel.value_of(), n.key.value_of(), n.velocity.value_of()],
        MidiMessage::NoteOn(n) => seq![0x90u8 | n.channel.value_of(), n.key.value_of(), n.velocity.value_of()],
        MidiMessage::ControlChange(c) => seq![0xB0u8 | c.channel.value_of(), c.controller.value_of(), c.value.value_of()],
        MidiMessage::ProgramChange(p) => seq![0xC0u8 | p.channel.value_of(), p.program.value_of()],
        MidiMessage::TimingClock(_) => seq![0xF8u8],
        MidiMessage::Start(_) => seq![0xFAu8],
        MidiMessage::Continue(_) => seq![0xFBu8],
        MidiMessage::Stop(_) => seq![0xFCu8],
    }
}

/// Serialization of a message to its wire bytes.
pub trait ToMidiBytes {
    /// The wire bytes of the message.
    fn to_midi_bytes(&self) -> Vec<u8>;
}

impl ToMidiBytes for MidiMessage {
    fn to_midi_bytes(&self) -> (b: Vec<u8>)
        ensures
            b@ == midi_bytes(*self),
    {
        let b = match self {
            MidiMessage::NoteOff(n) => vec![0x80 | n.channel.value(), n.key.value(), n.velocity.value()],
            MidiMessage::NoteOn(n) => vec![0x90 | n.channel.value(), n.key.value(), n.velocity.value()],
            MidiMessage::ControlChange(c) => vec![0xB0 | c.channel.value(), c.controller.value(), c.value.value()],
            MidiMessage::ProgramChange(p) => vec![0xC0 | p.channel.value(), p.program.value()],
            MidiMessage::TimingClock(_) => vec![0xF8],
            MidiMessage::Start(_) => vec![0xFA],
            MidiMessage::Continue(_) => vec![0xFB],
            MidiMessage::Stop(_) => vec![0xFC],
        };
        assert(b@ =~= midi_bytes(*self));
        b
    }
}

} // verus!
