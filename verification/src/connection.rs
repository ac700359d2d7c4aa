//! A connection to a Minilogue XD: typed MIDI messages sent on a channel
//! through any [`MidiOutput`].

use vstd::prelude::*;

use crate::error::Error;
use crate::message::{midi_bytes, MidiMessage, ToMidiBytes, U4};
use crate::transport::MidiOutput;

verus! {

/// A connection to a Minilogue XD on one MIDI channel.
pub struct MinilogueXd<O: MidiOutput> {
    output: O,
    channel: U4,
}

impl<O: MidiOutput> MinilogueXd<O> {
    /// The output of the connection.
    pub closed spec fn output_of(&self) -> O {
        self.output
    }

    /// The channel of the connection.
    pub closed spec fn channel_of(&self) -> U4 {
        self.channel
    }

    /// A connection using `output` on `channel`.
    pub fn new(output: O, channel: U4) -> (c: Self)
        ensures
            c.output_of() == output,
            c.channel_of() == channel,
    {
        MinilogueXd { output, channel }
    }

    /// Send the wire bytes of `msg` ([`midi_bytes`]) through the output;
    /// the result is the output's. A recording output adds them to its
    /// record.
    pub fn send_message(&mut self, msg: &MidiMessage) -> (r: Result<(), Error>)
        ensures
            final(self).channel_of() == old(self).channel_of(),
            final(self).output_of().keeps_record() == old(self).output_of().keeps_record(),
            final(self).output_of().never_fails() == old(self).output_of().never_fails(),
            old(self).output_of().never_fails() ==> r is Ok,
            old(self).output_of().keeps_record() ==> final(self).output_of().sent() == old(
                self,
            ).output_of().sent().push(midi_bytes(*msg)),
    {
        let bytes = msg.to_midi_bytes();
        self.output.send(bytes.as_slice())
    }

    /// The MIDI channel of the connection.
    pub fn channel(&self) -> (c: U4)
        ensures
            c == self.channel_of(),
    {
        self.channel
    }

    /// The output of the connection.
    pub fn output(&self) -> (o: &O)
        ensures
            *o == self.output_of(),
    {
        &self.output
    }

    /// The output of the connection, to change.
    pub fn output_mut(&mut self) -> (o: &mut O)
        ensures
            *o == old(self).output_of(),
            final(self).output_of() == *final(o),
            final(self).channel_of() == old(self).channel_of(),
    {
        &mut self.output
    }
}

} // verus!
