//! MIDI transport abstractions: [`MidiOutput`] sends raw MIDI messages,
//! [`MidiInput`] receives them. [`MockOutput`] and [`MockMidiInput`] are
//! in-memory test doubles; ports backed by a real MIDI system implement the
//! same traits outside the library.

use std::collections::VecDeque;
use std::time::Duration;

use vstd::prelude::*;

use crate::error::Error;

verus! {

/// A MIDI output port that sends raw byte messages.
///
/// A port may keep a record of what it was handed ([`MidiOutput::sent`]);
/// the contract of `send` then says how the record grows. A port that
/// keeps none (the default, and so every port written outside the
/// library) is promised nothing.
pub trait MidiOutput: Send {
    /// Whether the port keeps a record of the messages handed to it.
    open spec fn keeps_record(&self) -> bool {
        false
    }

    /// The messages handed to the port to send, oldest first, where it
    /// keeps a record.
    open spec fn sent(&self) -> Seq<Seq<u8>> {
        Seq::empty()
    }

    /// Whether sending on the port never fails.
    open spec fn never_fails(&self) -> bool {
        false
    }

    /// Send a raw MIDI message; fails when the port cannot deliver it. A
    /// port that keeps a record adds the message to it.
    fn send(&mut self, bytes: &[u8]) -> (r: Result<(), Error>)
        ensures
            final(self).keeps_record() == old(self).keeps_record(),
            final(self).never_fails() == old(self).never_fails(),
            old(self).keeps_record() ==> final(self).sent() == old(self).sent().push(bytes@),
            old(self).never_fails() ==> r is Ok,
    ;
}

/// A MIDI input port that receives raw byte messages.
///
/// A port may play back a script of messages ([`MidiInput::pending`]);
/// the contract of `receive` then says which message comes next. A port
/// without a script (the default, and so every port written outside the
/// library) is promised nothing.
pub trait MidiInput: Send {
    /// Whether the port plays back a script of messages.
    open spec fn scripted(&self) -> bool {
        false
    }

    /// The messages that a scripted port has still to hand out, oldest
    /// first.
    open spec fn pending(&self) -> Seq<Seq<u8>> {
        Seq::empty()
    }

    /// Wait up to `timeout` for the next complete MIDI message: `Ok(Some(..))`
    /// with its bytes, `Ok(None)` on timeout, or an error on I/O failure. A
    /// scripted port hands out its next message, or `None` once the script
    /// is done, and never fails.
    fn receive(&mut self, timeout: Duration) -> (r: Result<Option<Vec<u8>>, Error>)
        ensures
            final(self).scripted() == old(self).scripted(),
            old(self).scripted() && old(self).pending().len() == 0 ==> r == Ok::<Option<Vec<u8>>, Error>(None)
                && final(self).pending() == old(self).pending(),
            old(self).scripted() && old(self).pending().len() > 0 ==> (r matches Ok(Some(m)) && m@ == old(
                self,
            ).pending()[0] && final(self).pending() == old(self).pending().drop_first()),
    ;
}

/// The byte contents of a list of messages.
pub open spec fn messages_view(messages: Seq<Vec<u8>>) -> Seq<Seq<u8>> {
    messages.map_values(|m: Vec<u8>| m@)
}

/// A test double that records every message sent, in memory.
#[derive(Debug)]
pub struct MockOutput {
    messages: Vec<Vec<u8>>,
}

impl MockOutput {
    /// The messages recorded so far.
    pub closed spec fn recorded(&self) -> Seq<Seq<u8>> {
        messages_view(self.messages@)
    }

    /// A mock output with no messages.
    pub fn new() -> (o: Self)
        ensures
            o.recorded() == Seq::<Seq<u8>>::empty(),
    {
        let o = MockOutput { messages: Vec::new() };
        assert(o.recorded() =~= Seq::<Seq<u8>>::empty());
        o
    }

    /// All recorded messages, oldest first.
    pub fn messages(&self) -> (m: &[Vec<u8>])
        ensures
            messages_view(m@) == self.recorded(),
    {
        self.messages.as_slice()
    }

    /// The most recently sent message, or `None` when there is none.
    pub fn last_message(&self) -> (m: Option<&[u8]>)
        ensures
            self.recorded().len() == 0 ==> m is None,
            self.recorded().len() > 0 ==> (m matches Some(b) && b@ == self.recorded().last()),
    {
        let n = self.messages.len();
        if n == 0 {
            None
        } else {
            Some(self.messages[n - 1].as_slice())
        }
    }

    /// Forget all recorded messages.
    pub fn clear(&mut self)
        ensures
            final(self).recorded() == Seq::<Seq<u8>>::empty(),
    {
        self.messages.clear();
        assert(self.recorded() =~= Seq::<Seq<u8>>::empty());
    }
}

impl Default for MockOutput {
    /// A mock output with no messages.
    fn default() -> (o: Self)
        ensures
            o.recorded() == Seq::<Seq<u8>>::empty(),
    {
        Self::new()
    }
}

impl MidiOutput for MockOutput {
    /// A mock output keeps a record.
    open spec fn keeps_record(&self) -> bool {
        true
    }

    /// The recorded messages.
    open spec fn sent(&self) -> Seq<Seq<u8>> {
        self.recorded()
    }

    /// Recording a message never fails.
    open spec fn never_fails(&self) -> bool {
        true
    }

    /// Record the message; never fails.
    fn send(&mut self, bytes: &[u8]) -> (r: Result<(), Error>)
        ensures
            r is Ok,
            final(self).recorded() == old(self).recorded().push(bytes@),
    {
        let copy = vstd::slice::slice_to_vec(bytes);
        self.messages.push(copy);
        assert(self.recorded() =~= old(self).recorded().push(bytes@));
        Ok(())
    }
}

/// A test double that plays back queued responses: each call of
/// [`MidiInput::receive`] takes the oldest one, and an empty queue stands
/// for a timeout.
#[derive(Debug)]
pub struct MockMidiInput {
    responses: VecDeque<Vec<u8>>,
}

impl MockMidiInput {
    /// The responses still queued, oldest first.
    pub closed spec fn queued(&self) -> Seq<Seq<u8>> {
        messages_view(self.responses@)
    }

    /// A mock input with no queued responses.
    pub fn new() -> (i: Self)
        ensures
            i.queued() == Seq::<Seq<u8>>::empty(),
    {
        let i = MockMidiInput { responses: VecDeque::new() };
        assert(i.queued() =~= Seq::<Seq<u8>>::empty());
        i
    }

    /// Queue a response for a later `receive`.
    pub fn queue_response(&mut self, bytes: Vec<u8>)
        ensures
            final(self).queued() == old(self).queued().push(bytes@),
    {
        self.responses.push_back(bytes);
        assert(self.queued() =~= old(self).queued().push(bytes@));
    }

    /// Queue several responses, in order.
    pub fn queue_responses(&mut self, responses: Vec<Vec<u8>>)
        ensures
            final(self).queued() == old(self).queued() + messages_view(responses@),
    {
        let ghost start = self.queued();
        let mut i: usize = 0;
        while i < responses.len()
            invariant
                i <= responses@.len(),
                self.queued() == start + messages_view(responses@.take(i as int)),
            decreases responses@.len() - i,
        {
            let m = vstd::slice::slice_to_vec(responses[i].as_slice());
            let ghost before = self.responses@;
            self.responses.push_back(m);
            assert(self.responses@ == before.push(m));
            assert(messages_view(before.push(m)) =~= messages_view(before).push(m@));
            assert(messages_view(responses@.take(i + 1)) =~= messages_view(responses@.take(i as int)).push(m@));
            assert(self.queued() =~= start + messages_view(responses@.take(i + 1)));
            i = i + 1;
        }
        assert(responses@.take(responses@.len() as int) =~= responses@);
    }

    /// The number of responses still queued.
    pub fn remaining(&self) -> (n: usize)
        ensures
            n == self.queued().len(),
    {
        self.responses.len()
    }
}

impl Default for MockMidiInput {
    /// A mock input with no queued responses.
    fn default() -> (i: Self)
        ensures
            i.queued() == Seq::<Seq<u8>>::empty(),
    {
        Self::new()
    }
}

impl MidiInput for MockMidiInput {
    /// A mock input plays back its queue.
    open spec fn scripted(&self) -> bool {
        true
    }

    /// The queued responses.
    open spec fn pending(&self) -> Seq<Seq<u8>> {
        self.queued()
    }

    /// Take the oldest queued response, or `None` when the queue is empty;
    /// never fails.
    fn receive(&mut self, _timeout: Duration) -> (r: Result<Option<Vec<u8>>, Error>)
        ensures
            old(self).queued().len() == 0 ==> r == Ok::<Option<Vec<u8>>, Error>(None) && final(self).queued() == old(self).queued(),
            old(self).queued().len() > 0 ==> (r matches Ok(Some(m)) && m@ == old(self).queued()[0] && final(self).queued()
                == old(self).queued().drop_first()),
    {
        let m = self.responses.pop_front();
        proof {
            if old(self).queued().len() > 0 {
                assert(self.queued() =~= old(self).queued().drop_first());
            }
        }
        Ok(m)
    }
}

} // verus!
