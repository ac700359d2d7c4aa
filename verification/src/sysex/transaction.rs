//! Request/response conversations with the device.
//!
//! A [`SysexTransaction`] sends a request or a data dump on a
//! [`MidiOutput`], waits on a [`MidiInput`] for the device's reply (skipping
//! realtime messages such as clock and active sensing), detects error status
//! replies, and parses the reply. What is done with a reply is decided by
//! the verified functions [`check_reply`], [`check_raw_reply`],
//! [`check_ack`] and the `read_*_reply` parsers, which take the reply bytes
//! as their argument.

use std::time::{Duration, Instant};

use vstd::prelude::*;

use crate::codec::{all_seven_bit, is_codec_error, spec_decode_7bit, spec_encode_7bit};
use crate::error::{Error, SysexError};
use crate::message::types::U4;
use crate::sysex::frame::{
    frame_bytes, frame_header_fault, frame_payload, parse_sysex, SysexFrame, SysexStatus, CURRENT_PROGRAM_DUMP,
    CURRENT_PROGRAM_REQUEST, GLOBAL_DATA_DUMP, GLOBAL_DATA_REQUEST, PROGRAM_DATA_DUMP, PROGRAM_DATA_REQUEST,
    USER_OCTAVE_DUMP, USER_OCTAVE_REQUEST, USER_SCALE_DUMP, USER_SCALE_REQUEST,
};
use crate::sysex::global::{build_global_dump, build_global_request, global_blob_parser, global_bytes, GlobalParams};
use crate::sysex::identity::{build_identity_request, identity_parses_as, parse_identity_reply, IdentityReply};
use crate::sysex::program::{
    build_current_program_dump, build_current_program_request, build_program_dump, build_program_request,
    parse_program_dump, program_blob_parser, program_dump_parses_as, program_number_bytes, ProgramData,
    ProgramNumber,
};
use crate::sysex::tuning::{
    build_user_octave_dump, build_user_octave_request, build_user_scale_dump, build_user_scale_request,
    octave_blob_parser, offsets_bytes, scale_blob_parser, UserOctave, UserScale,
};
use crate::transport::{MidiInput, MidiOutput};

verus! {

// ---------------------------------------------------------------------------
// Time
// ---------------------------------------------------------------------------

#[verifier::external_type_specification]
#[verifier::external_body]
pub struct ExInstant(Instant);

/// The whole nanoseconds of a duration, as `Duration::as_nanos` gives them.
pub uninterp spec fn duration_nanos(d: Duration) -> u128;

/// `Duration::from_secs`: a duration of `secs` seconds, so of `secs`
/// times 10^9 nanoseconds.
#[verifier::external_body]
fn duration_from_secs(secs: u64) -> (d: Duration)
    ensures
        duration_nanos(d) == secs * 1_000_000_000,
{
    Duration::from_secs(secs)
}

/// `Duration::from_nanos`: a duration of `nanos` nanoseconds.
#[verifier::external_body]
fn duration_from_nanos(nanos: u64) -> (d: Duration)
    ensures
        duration_nanos(d) == nanos,
{
    Duration::from_nanos(nanos)
}

/// `Duration::as_nanos`: the whole nanoseconds of `d`.
#[verifier::external_body]
fn duration_as_nanos(d: Duration) -> (n: u128)
    ensures
        n == duration_nanos(d),
{
    d.as_nanos()
}

/// `Instant::now`: the current time of the monotonic clock.
#[verifier::external_body]
fn clock_now() -> (t: Instant) {
    Instant::now()
}

/// `Instant::elapsed`: the time since `start`.
#[verifier::external_body]
fn elapsed_since(start: &Instant) -> (d: Duration) {
    start.elapsed()
}

// ---------------------------------------------------------------------------
// Waiting for a reply
// ---------------------------------------------------------------------------

/// What the wait for a SysEx reply does next.
#[derive(Debug, Clone, Copy, PartialEq, Eq)]
pub enum ReceiveStep {
    /// The message received is the reply.
    Deliver,
    /// The message received is skipped, and the wait goes on.
    Skip,
    /// The wait fails with a timeout.
    TimedOut,
}

/// What the wait does after the input handed back `received`, with
/// `time_left` nanoseconds of the timeout left: a SysEx message (starting
/// with `F0`) is the reply; any other message (a realtime clock or active
/// sensing byte) is skipped while time is left; no message is a timeout.
pub open spec fn receive_step_of(time_left: u128, received: Option<Seq<u8>>) -> ReceiveStep {
    match received {
        None => ReceiveStep::TimedOut,
        Some(b) => if b.len() > 0 && b[0] == 0xF0 {
            ReceiveStep::Deliver
        } else if time_left == 0 {
            ReceiveStep::TimedOut
        } else {
            ReceiveStep::Skip
        },
    }
}

/// The byte contents of what the input handed back.
pub open spec fn received_view(received: Option<Vec<u8>>) -> Option<Seq<u8>> {
    match received {
        None => None,
        Some(b) => Some(b@),
    }
}

/// Decide what the wait for a SysEx reply does after the input handed back
/// `received` ([`receive_step_of`]).
pub fn receive_step(time_left: u128, received: &Option<Vec<u8>>) -> (s: ReceiveStep)
    ensures
        s == receive_step_of(time_left, received_view(*received)),
{
    match received {
        None => ReceiveStep::TimedOut,
        Some(b) => if b.len() > 0 && b[0] == 0xF0 {
            ReceiveStep::Deliver
        } else if time_left == 0 {
            ReceiveStep::TimedOut
        } else {
            ReceiveStep::Skip
        },
    }
}

// ---------------------------------------------------------------------------
// Deciding on a reply
// ---------------------------------------------------------------------------

/// The error status that the function ID byte `f` of a reply reports, if
/// any: every status but the successful acknowledgement.
pub open spec fn error_status(f: u8) -> Option<SysexStatus> {
    match SysexStatus::spec_from_byte(f) {
        Some(st) => if st != SysexStatus::DataLoadCompleted {
            Some(st)
        } else {
            None
        },
        None => None,
    }
}

/// What a request that expects function ID `fid` makes of the reply `b`:
/// the frame's fault or codec error, an error status, another function ID,
/// or whatever `parser` relates to the decoded payload.
pub open spec fn reply_parses_as<T>(
    b: Seq<u8>,
    fid: u8,
    parser: spec_fn(Seq<u8>, Result<T, Error>) -> bool,
    r: Result<T, Error>,
) -> bool {
    match frame_header_fault(b) {
        Some(fault) => r == Err::<T, Error>(Error::Sysex(fault)),
        None => if !all_seven_bit(frame_payload(b)) {
            r matches Err(e) && is_codec_error(frame_payload(b), e)
        } else if let Some(st) = error_status(b[6]) {
            r == Err::<T, Error>(Error::Sysex(SysexError::NakReceived(st)))
        } else if b[6] != fid {
            r == Err::<T, Error>(Error::Sysex(SysexError::UnexpectedResponse(b[6])))
        } else {
            parser(spec_decode_7bit(frame_payload(b)), r)
        },
    }
}

/// The frame relation: `r` is the frame of the valid Korg frame `b`.
pub open spec fn frame_parser() -> spec_fn(Seq<u8>, Result<SysexFrame, Error>) -> bool {
    |data: Seq<u8>, r: Result<SysexFrame, Error>| r matches Ok(frame) && frame.data@ == data
}

/// Check a reply to a request that expects function ID `expected_fn`:
/// parse its frame, fail on an error status, then on another function ID.
pub fn check_reply(response: &[u8], expected_fn: u8) -> (r: Result<SysexFrame, Error>)
    ensures
        reply_parses_as(response@, expected_fn, frame_parser(), r),
        r matches Ok(frame) ==> frame.function_id == expected_fn && frame.channel.value_of() == response@[2] & 0x0F,
{
    let frame = parse_sysex(response)?;
    if let Some(status) = SysexStatus::from_byte(frame.function_id) {
        if status.is_error() {
            return Err(Error::Sysex(SysexError::NakReceived(status)));
        }
    }
    if frame.function_id != expected_fn {
        return Err(Error::Sysex(SysexError::UnexpectedResponse(frame.function_id)));
    }
    Ok(frame)
}

/// What [`check_raw_reply`] makes of `b`: an 8-byte reply that is a valid
/// frame with an error status fails with it; every other reply is kept.
pub open spec fn raw_reply_checks(b: Seq<u8>, r: Result<Vec<u8>, Error>) -> bool {
    if b.len() == 8 && frame_header_fault(b) is None && all_seven_bit(frame_payload(b)) && error_status(b[6]) is Some {
        r == Err::<Vec<u8>, Error>(Error::Sysex(SysexError::NakReceived(error_status(b[6])->0)))
    } else {
        r matches Ok(v) && v@ == b
    }
}

/// Check a reply that needs its own parser (a stored program dump): only a
/// minimal 8-byte frame can be a status reply, and it fails when it
/// reports an error.
pub fn check_raw_reply(response: Vec<u8>) -> (r: Result<Vec<u8>, Error>)
    ensures
        raw_reply_checks(response@, r),
{
    if response.len() == 8 {
        if let Ok(frame) = parse_sysex(response.as_slice()) {
            if let Some(status) = SysexStatus::from_byte(frame.function_id) {
                if status.is_error() {
                    return Err(Error::Sysex(SysexError::NakReceived(status)));
                }
            }
        }
    }
    Ok(response)
}

/// What [`check_ack`] makes of the reply `b` to a data dump: the frame's
/// fault or codec error, then success for the acknowledgement, the error
/// status, or an unexpected function ID.
pub open spec fn ack_checks(b: Seq<u8>, r: Result<(), Error>) -> bool {
    match frame_header_fault(b) {
        Some(fault) => r == Err::<(), Error>(Error::Sysex(fault)),
        None => if !all_seven_bit(frame_payload(b)) {
            r matches Err(e) && is_codec_error(frame_payload(b), e)
        } else {
            match SysexStatus::spec_from_byte(b[6]) {
                Some(st) => if st == SysexStatus::DataLoadCompleted {
                    r == Ok::<(), Error>(())
                } else {
                    r == Err::<(), Error>(Error::Sysex(SysexError::NakReceived(st)))
                },
                None => r == Err::<(), Error>(Error::Sysex(SysexError::UnexpectedResponse(b[6]))),
            }
        },
    }
}

/// Check the reply to a data dump: success only for the acknowledgement.
pub fn check_ack(response: &[u8]) -> (r: Result<(), Error>)
    ensures
        ack_checks(response@, r),
{
    let frame = parse_sysex(response)?;
    if let Some(status) = SysexStatus::from_byte(frame.function_id) {
        if status.is_error() {
            return Err(Error::Sysex(SysexError::NakReceived(status)));
        }
        return Ok(());
    }
    Err(Error::Sysex(SysexError::UnexpectedResponse(frame.function_id)))
}

/// Read the reply to a current program request.
pub fn read_current_program_reply(response: &[u8]) -> (r: Result<ProgramData, Error>)
    ensures
        reply_parses_as(response@, CURRENT_PROGRAM_DUMP, program_blob_parser(), r),
{
    let frame = check_reply(response, CURRENT_PROGRAM_DUMP)?;
    ProgramData::from_bytes(frame.data.as_slice())
}

/// Read the reply to a global data request.
pub fn read_global_reply(response: &[u8]) -> (r: Result<GlobalParams, Error>)
    ensures
        reply_parses_as(response@, GLOBAL_DATA_DUMP, global_blob_parser(), r),
{
    let frame = check_reply(response, GLOBAL_DATA_DUMP)?;
    GlobalParams::from_bytes(frame.data.as_slice())
}

/// Read the reply to a user scale request.
pub fn read_user_scale_reply(response: &[u8]) -> (r: Result<UserScale, Error>)
    ensures
        reply_parses_as(response@, USER_SCALE_DUMP, scale_blob_parser(), r),
{
    let frame = check_reply(response, USER_SCALE_DUMP)?;
    UserScale::from_bytes(frame.data.as_slice())
}

/// Read the reply to a user octave request.
pub fn read_user_octave_reply(response: &[u8]) -> (r: Result<UserOctave, Error>)
    ensures
        reply_parses_as(response@, USER_OCTAVE_DUMP, octave_blob_parser(), r),
{
    let frame = check_reply(response, USER_OCTAVE_DUMP)?;
    UserOctave::from_bytes(frame.data.as_slice())
}

/// What [`read_program_reply`] makes of the reply `b` to a stored program
/// request: an error status, or the program data of the dump.
pub open spec fn program_reply_parses_as(b: Seq<u8>, r: Result<ProgramData, Error>) -> bool {
    if b.len() == 8 && frame_header_fault(b) is None && all_seven_bit(frame_payload(b)) && error_status(b[6]) is Some {
        r == Err::<ProgramData, Error>(Error::Sysex(SysexError::NakReceived(error_status(b[6])->0)))
    } else {
        match r {
            Ok(d) => exists|n: ProgramNumber| #[trigger] program_dump_parses_as(b, Ok::<(ProgramNumber, ProgramData), Error>((n, d))),
            Err(e) => program_dump_parses_as(b, Err::<(ProgramNumber, ProgramData), Error>(e)),
        }
    }
}

/// Read the reply to a stored program request; the program number of the
/// dump is dropped.
pub fn read_program_reply(response: Vec<u8>) -> (r: Result<ProgramData, Error>)
    ensures
        program_reply_parses_as(response@, r),
{
    let raw = check_raw_reply(response)?;
    let (_number, data) = parse_program_dump(raw.as_slice())?;
    Ok(data)
}

// ---------------------------------------------------------------------------
// SysexTransaction
// ---------------------------------------------------------------------------

/// The index of the first SysEx message (one starting with `F0`) in
/// `msgs`, if any.
pub open spec fn first_sysex(msgs: Seq<Seq<u8>>) -> Option<int>
    decreases msgs.len(),
{
    if msgs.len() == 0 {
        None
    } else if msgs[0].len() > 0 && msgs[0][0] == 0xF0 {
        Some(0)
    } else {
        match first_sysex(msgs.drop_first()) {
            Some(k) => Some(k + 1),
            None => None,
        }
    }
}

/// Before the first SysEx message of `s`, the messages from `j` on come
/// in the same order.
proof fn lemma_first_sysex_skip(s: Seq<Seq<u8>>, j: int)
    requires
        0 <= j <= s.len(),
        first_sysex(s.take(j)) is None,
    ensures
        first_sysex(s) == (match first_sysex(s.skip(j)) {
            Some(k) => Some(k + j),
            None => None::<int>,
        }),
    decreases j,
{
    if j == 0 {
        assert(s.skip(0) =~= s);
    } else {
        let t = s.take(j);
        assert(t[0] == s[0]);
        assert(t.drop_first() =~= s.drop_first().take(j - 1));
        lemma_first_sysex_skip(s.drop_first(), j - 1);
        assert(s.drop_first().skip(j - 1) =~= s.skip(j));
    }
}

/// One more message, not a SysEx one, still leaves no SysEx message in the
/// prefix; a SysEx one there is the first of all.
proof fn lemma_first_sysex_step(s: Seq<Seq<u8>>, j: int)
    requires
        0 <= j < s.len(),
        first_sysex(s.take(j)) is None,
    ensures
        (s[j].len() > 0 && s[j][0] == 0xF0) ==> first_sysex(s) == Some(j),
        !(s[j].len() > 0 && s[j][0] == 0xF0) ==> first_sysex(s.take(j + 1)) is None,
{
    lemma_first_sysex_skip(s, j);
    assert(s.skip(j)[0] == s[j]);
    let t = s.take(j + 1);
    assert(t.take(j) =~= s.take(j));
    lemma_first_sysex_skip(t, j);
    assert(t.skip(j) =~= seq![s[j]]);
    assert(seq![s[j]].drop_first() =~= Seq::<Seq<u8>>::empty());
    assert(first_sysex(Seq::<Seq<u8>>::empty()) is None);
    if !(s[j].len() > 0 && s[j][0] == 0xF0) {
        assert(seq![s[j]][0] == s[j]);
        assert(first_sysex(seq![s[j]]) is None);
    }
}

/// What the wait for a reply gives, `r`, from an input that plays back
/// `before` and then has `after` left: its first SysEx message, the
/// messages before it skipped; or a timeout after skipping messages that
/// are not SysEx ones.
pub open spec fn scripted_reply(before: Seq<Seq<u8>>, after: Seq<Seq<u8>>, timeout: Duration, r: Result<Vec<u8>, Error>) -> bool {
    match r {
        Ok(b) => first_sysex(before) matches Some(k) && b@ == before[k] && after == before.skip(k + 1),
        Err(e) => e == Error::Sysex(SysexError::Timeout(timeout)) && exists|j: int|
            0 <= j <= before.len() && after == before.skip(j) && first_sysex(#[trigger] before.take(j)) is None,
    }
}

/// What a request's result is, given the outcome `ex` of its exchange: the
/// exchange's error, or what the reply reads as by `reads`.
pub open spec fn reply_read<T>(
    ex: Result<Vec<u8>, Error>,
    r: Result<T, Error>,
    reads: spec_fn(Seq<u8>, Result<T, Error>) -> bool,
) -> bool {
    match ex {
        Err(e) => r == Err::<T, Error>(e),
        Ok(b) => b@.len() > 0 && b@[0] == 0xF0 && reads(b@, r),
    }
}

/// A manager of request/response conversations: it borrows an output and
/// an input for as long as it lives.
pub struct SysexTransaction<'a, O: MidiOutput, I: MidiInput> {
    output: &'a mut O,
    input: &'a mut I,
    channel: U4,
    timeout: Duration,
}

impl<'a, O: MidiOutput, I: MidiInput> SysexTransaction<'a, O, I> {
    /// The channel of the transaction.
    pub closed spec fn channel_of(&self) -> U4 {
        self.channel
    }

    /// The timeout of each wait for a reply.
    pub closed spec fn timeout_of(&self) -> Duration {
        self.timeout
    }

    /// The output the transaction sends on.
    pub closed spec fn output_of(&self) -> O {
        *self.output
    }

    /// The input the transaction receives from.
    pub closed spec fn input_of(&self) -> I {
        *self.input
    }

    /// The same channel and timeout as `other`, and ports that still keep a
    /// record or play back a script if they did.
    pub open spec fn same_settings(self, other: Self) -> bool {
        &&& self.channel_of() == other.channel_of()
        &&& self.timeout_of() == other.timeout_of()
        &&& self.output_of().keeps_record() == other.output_of().keeps_record()
        &&& self.output_of().never_fails() == other.output_of().never_fails()
        &&& self.input_of().scripted() == other.input_of().scripted()
    }

    /// What a wait for a reply did, from this transaction to `after`, with
    /// result `r`: the output is untouched, and the input as
    /// [`Self::waited_for`] says.
    pub open spec fn waited(self, after: Self, r: Result<Vec<u8>, Error>) -> bool {
        &&& after.output_of() == self.output_of()
        &&& self.waited_for(after, r)
    }

    /// What sending `request` and waiting for the reply did, from this
    /// transaction to `after`, with outcome `r`: the request was handed to
    /// the output (a recording output added it to its record); then either
    /// sending failed (never on an output that never fails), `r` is the
    /// output's error and nothing was received, or the reply is what the
    /// wait gave.
    pub open spec fn exchanged(self, after: Self, request: Seq<u8>, r: Result<Vec<u8>, Error>) -> bool {
        &&& self.output_of().keeps_record() ==> after.output_of().sent() == self.output_of().sent().push(request)
        &&& self.output_of().never_fails() ==> self.waited_for(after, r)
        &&& {
            ||| r is Err && after.input_of() == self.input_of()
            ||| self.waited_for(after, r)
        }
    }

    /// What the wait for a reply did to the input, from this transaction
    /// to `after`, with result `r`: a reply starts with `F0`; a scripted
    /// input gave its first SysEx message, or the wait timed out.
    pub open spec fn waited_for(self, after: Self, r: Result<Vec<u8>, Error>) -> bool {
        &&& r matches Ok(b) ==> b@.len() > 0 && b@[0] == 0xF0
        &&& self.input_of().scripted() ==> scripted_reply(
            self.input_of().pending(),
            after.input_of().pending(),
            self.timeout_of(),
            r,
        )
    }

    /// A transaction on `channel` with the default timeout of 5 seconds;
    /// it sends and receives nothing yet.
    pub fn new(output: &'a mut O, input: &'a mut I, channel: U4) -> (t: Self)
        ensures
            t.channel_of() == channel,
            duration_nanos(t.timeout_of()) == 5_000_000_000,
            t.output_of() == *old(output),
            t.input_of() == *old(input),
    {
        SysexTransaction { output, input, channel, timeout: duration_from_secs(5) }
    }

    /// The same transaction with another timeout.
    pub fn with_timeout(self, timeout: Duration) -> (t: Self)
        ensures
            t.timeout_of() == timeout,
            t.channel_of() == self.channel_of(),
            t.output_of() == self.output_of(),
            t.input_of() == self.input_of(),
    {
        let mut t = self;
        t.timeout = timeout;
        t
    }

    /// The timeout of each wait for a reply.
    pub fn timeout(&self) -> (d: Duration)
        ensures
            d == self.timeout_of(),
    {
        self.timeout
    }

    /// The MIDI channel of the transaction.
    pub fn channel(&self) -> (c: U4)
        ensures
            c == self.channel_of(),
    {
        self.channel
    }

    /// Receive the next SysEx message (starting with `F0`), skipping the
    /// realtime messages that the device interleaves, and fail with a
    /// timeout when the input reports one or the timeout has passed; each
    /// decision is [`receive_step`]'s.
    ///
    /// The wait is bounded by the timeout as measured by the monotonic
    /// clock; each skipped message also takes at least a nanosecond off the
    /// time left, so that the loop ends whatever the clock does.
    fn receive_sysex(&mut self) -> (r: Result<Vec<u8>, Error>)
        ensures
            final(self).same_settings(*old(self)),
            old(self).waited(*final(self), r),
    {
        let ghost start_pending = self.input_of().pending();
        let total = duration_as_nanos(self.timeout);
        if total == 0 {
            proof {
                assert(start_pending.skip(0) =~= start_pending);
                assert(start_pending.take(0) =~= Seq::<Seq<u8>>::empty());
            }
            return Err(Error::Sysex(SysexError::Timeout(self.timeout)));
        }
        let start = clock_now();
        let mut left: u128 = total;
        let ghost mut j: int = 0;
        proof {
            assert(start_pending.skip(0) =~= start_pending);
            assert(start_pending.take(0) =~= Seq::<Seq<u8>>::empty());
        }
        loop
            invariant
                left > 0,
                self.same_settings(*old(self)),
                self.output_of() == old(self).output_of(),
                start_pending == old(self).input_of().pending(),
                old(self).input_of().scripted() ==> {
                    &&& 0 <= j <= start_pending.len()
                    &&& self.input_of().pending() == start_pending.skip(j)
                    &&& first_sysex(start_pending.take(j)) is None
                },
            decreases left,
        {
            let wait = if left > u64::MAX as u128 { u64::MAX } else { left as u64 };
            let ghost pending = self.input_of().pending();
            let received = self.input.receive(duration_from_nanos(wait))?;
            let elapsed = duration_as_nanos(elapsed_since(&start));
            let by_clock = total.saturating_sub(elapsed);
            let remaining = if by_clock < left - 1 { by_clock } else { left - 1 };
            let step = receive_step(remaining, &received);
            proof {
                if old(self).input_of().scripted() && pending.len() > 0 {
                    assert(pending[0] == start_pending[j]);
                    lemma_first_sysex_step(start_pending, j);
                    assert(pending.drop_first() =~= start_pending.skip(j + 1));
                }
            }
            match (step, received) {
                (ReceiveStep::Deliver, Some(bytes)) => {
                    return Ok(bytes);
                },
                (ReceiveStep::Skip, _) => {
                    left = remaining;
                    proof {
                        j = j + 1;
                    }
                },
                _ => {
                    return Err(Error::Sysex(SysexError::Timeout(self.timeout)));
                },
            }
        }
    }

    /// Send `request`, then receive the reply.
    fn exchange(&mut self, request: &[u8]) -> (r: Result<Vec<u8>, Error>)
        ensures
            final(self).same_settings(*old(self)),
            old(self).exchanged(*final(self), request@, r),
    {
        self.output.send(request)?;
        self.receive_sysex()
    }

    /// Request the current program.
    ///
    /// The request goes out as [`exchanged`] says; the result is the
    /// exchange's error, or what the reply reads as.
    pub fn request_current_program(&mut self) -> (r: Result<ProgramData, Error>)
        ensures
            final(self).same_settings(*old(self)),
            exists|ex: Result<Vec<u8>, Error>|
                old(self).exchanged(*final(self), frame_bytes(old(self).channel_of().value_of(), CURRENT_PROGRAM_REQUEST, Seq::empty()), ex) && reply_read(
                    ex,
                    r,
                    |b: Seq<u8>, q: Result<ProgramData, Error>| reply_parses_as(b, CURRENT_PROGRAM_DUMP, program_blob_parser(), q),
                ),
    {
        let request = build_current_program_request(self.channel);
        let reply = self.exchange(request.as_slice());
        let ghost ex = reply;
        let reply = reply?;
        let r = read_current_program_reply(reply.as_slice());
        assert(reply_read(ex, r, |b: Seq<u8>, q: Result<ProgramData, Error>| reply_parses_as(b, CURRENT_PROGRAM_DUMP, program_blob_parser(), q)));
        r
    }

    /// Send a program to the current edit buffer and wait for the
    /// acknowledgement.
    ///
    /// The request goes out as [`exchanged`] says; the result is the
    /// exchange's error, or what the reply reads as.
    pub fn send_current_program(&mut self, data: &ProgramData) -> (r: Result<(), Error>)
        ensures
            final(self).same_settings(*old(self)),
            exists|ex: Result<Vec<u8>, Error>|
                old(self).exchanged(*final(self), frame_bytes(old(self).channel_of().value_of(), CURRENT_PROGRAM_DUMP, spec_encode_7bit(data.spec_bytes())), ex) && reply_read(
                    ex,
                    r,
                    |b: Seq<u8>, q: Result<(), Error>| ack_checks(b, q),
                ),
    {
        let request = build_current_program_dump(self.channel, data);
        let reply = self.exchange(request.as_slice());
        let ghost ex = reply;
        let reply = reply?;
        let r = check_ack(reply.as_slice());
        assert(reply_read(ex, r, |b: Seq<u8>, q: Result<(), Error>| ack_checks(b, q)));
        r
    }

    /// Request the stored program `number`.
    ///
    /// The request goes out as [`exchanged`] says; the result is the
    /// exchange's error, or what the reply reads as.
    pub fn request_program(&mut self, number: ProgramNumber) -> (r: Result<ProgramData, Error>)
        ensures
            final(self).same_settings(*old(self)),
            exists|ex: Result<Vec<u8>, Error>|
                old(self).exchanged(*final(self), frame_bytes(old(self).channel_of().value_of(), PROGRAM_DATA_REQUEST, program_number_bytes(number.value_of())), ex) && reply_read(
                    ex,
                    r,
                    |b: Seq<u8>, q: Result<ProgramData, Error>| program_reply_parses_as(b, q),
                ),
    {
        let request = build_program_request(self.channel, number);
        let reply = self.exchange(request.as_slice());
        let ghost ex = reply;
        let reply = reply?;
        let r = read_program_reply(reply);
        assert(reply_read(ex, r, |b: Seq<u8>, q: Result<ProgramData, Error>| program_reply_parses_as(b, q)));
        r
    }

    /// Send a program to the stored slot `number` and wait for the
    /// acknowledgement.
    ///
    /// The request goes out as [`exchanged`] says; the result is the
    /// exchange's error, or what the reply reads as.
    pub fn send_program(&mut self, number: ProgramNumber, data: &ProgramData) -> (r: Result<(), Error>)
        ensures
            final(self).same_settings(*old(self)),
            exists|ex: Result<Vec<u8>, Error>|
                old(self).exchanged(*final(self), frame_bytes(old(self).channel_of().value_of(), PROGRAM_DATA_DUMP, program_number_bytes(number.value_of()) + spec_encode_7bit(data.spec_bytes())), ex) && reply_read(
                    ex,
                    r,
                    |b: Seq<u8>, q: Result<(), Error>| ack_checks(b, q),
                ),
    {
        let request = build_program_dump(self.channel, number, data);
        let reply = self.exchange(request.as_slice());
        let ghost ex = reply;
        let reply = reply?;
        let r = check_ack(reply.as_slice());
        assert(reply_read(ex, r, |b: Seq<u8>, q: Result<(), Error>| ack_checks(b, q)));
        r
    }

    /// Request the global parameters.
    ///
    /// The request goes out as [`exchanged`] says; the result is the
    /// exchange's error, or what the reply reads as.
    pub fn request_global(&mut self) -> (r: Result<GlobalParams, Error>)
        ensures
            final(self).same_settings(*old(self)),
            exists|ex: Result<Vec<u8>, Error>|
                old(self).exchanged(*final(self), frame_bytes(old(self).channel_of().value_of(), GLOBAL_DATA_REQUEST, Seq::empty()), ex) && reply_read(
                    ex,
                    r,
                    |b: Seq<u8>, q: Result<GlobalParams, Error>| reply_parses_as(b, GLOBAL_DATA_DUMP, global_blob_parser(), q),
                ),
    {
        let request = build_global_request(self.channel);
        let reply = self.exchange(request.as_slice());
        let ghost ex = reply;
        let reply = reply?;
        let r = read_global_reply(reply.as_slice());
        assert(reply_read(ex, r, |b: Seq<u8>, q: Result<GlobalParams, Error>| reply_parses_as(b, GLOBAL_DATA_DUMP, global_blob_parser(), q)));
        r
    }

    /// Send the global parameters and wait for the acknowledgement.
    ///
    /// The request goes out as [`exchanged`] says; the result is the
    /// exchange's error, or what the reply reads as.
    pub fn send_global(&mut self, params: &GlobalParams) -> (r: Result<(), Error>)
        ensures
            final(self).same_settings(*old(self)),
            exists|ex: Result<Vec<u8>, Error>|
                old(self).exchanged(*final(self), frame_bytes(old(self).channel_of().value_of(), GLOBAL_DATA_DUMP, spec_encode_7bit(global_bytes(*params))), ex) && reply_read(
                    ex,
                    r,
                    |b: Seq<u8>, q: Result<(), Error>| ack_checks(b, q),
                ),
    {
        let request = build_global_dump(self.channel, params);
        let reply = self.exchange(request.as_slice());
        let ghost ex = reply;
        let reply = reply?;
        let r = check_ack(reply.as_slice());
        assert(reply_read(ex, r, |b: Seq<u8>, q: Result<(), Error>| ack_checks(b, q)));
        r
    }

    /// Request the user scale.
    ///
    /// The request goes out as [`exchanged`] says; the result is the
    /// exchange's error, or what the reply reads as.
    pub fn request_user_scale(&mut self) -> (r: Result<UserScale, Error>)
        ensures
            final(self).same_settings(*old(self)),
            exists|ex: Result<Vec<u8>, Error>|
                old(self).exchanged(*final(self), frame_bytes(old(self).channel_of().value_of(), USER_SCALE_REQUEST, Seq::empty()), ex) && reply_read(
                    ex,
                    r,
                    |b: Seq<u8>, q: Result<UserScale, Error>| reply_parses_as(b, USER_SCALE_DUMP, scale_blob_parser(), q),
                ),
    {
        let request = build_user_scale_request(self.channel);
        let reply = self.exchange(request.as_slice());
        let ghost ex = reply;
        let reply = reply?;
        let r = read_user_scale_reply(reply.as_slice());
        assert(reply_read(ex, r, |b: Seq<u8>, q: Result<UserScale, Error>| reply_parses_as(b, USER_SCALE_DUMP, scale_blob_parser(), q)));
        r
    }

    /// Send a user scale and wait for the acknowledgement.
    ///
    /// The request goes out as [`exchanged`] says; the result is the
    /// exchange's error, or what the reply reads as.
    pub fn send_user_scale(&mut self, scale: &UserScale) -> (r: Result<(), Error>)
        ensures
            final(self).same_settings(*old(self)),
            exists|ex: Result<Vec<u8>, Error>|
                old(self).exchanged(*final(self), frame_bytes(old(self).channel_of().value_of(), USER_SCALE_DUMP, spec_encode_7bit(offsets_bytes(scale.0@))), ex) && reply_read(
                    ex,
                    r,
                    |b: Seq<u8>, q: Result<(), Error>| ack_checks(b, q),
                ),
    {
        let request = build_user_scale_dump(self.channel, scale);
        let reply = self.exchange(request.as_slice());
        let ghost ex = reply;
        let reply = reply?;
        let r = check_ack(reply.as_slice());
        assert(reply_read(ex, r, |b: Seq<u8>, q: Result<(), Error>| ack_checks(b, q)));
        r
    }

    /// Request the user octave.
    ///
    /// The request goes out as [`exchanged`] says; the result is the
    /// exchange's error, or what the reply reads as.
    pub fn request_user_octave(&mut self) -> (r: Result<UserOctave, Error>)
        ensures
            final(self).same_settings(*old(self)),
            exists|ex: Result<Vec<u8>, Error>|
                old(self).exchanged(*final(self), frame_bytes(old(self).channel_of().value_of(), USER_OCTAVE_REQUEST, Seq::empty()), ex) && reply_read(
                    ex,
                    r,
                    |b: Seq<u8>, q: Result<UserOctave, Error>| reply_parses_as(b, USER_OCTAVE_DUMP, octave_blob_parser(), q),
                ),
    {
        let request = build_user_octave_request(self.channel);
        let reply = self.exchange(request.as_slice());
        let ghost ex = reply;
        let reply = reply?;
        let r = read_user_octave_reply(reply.as_slice());
        assert(reply_read(ex, r, |b: Seq<u8>, q: Result<UserOctave, Error>| reply_parses_as(b, USER_OCTAVE_DUMP, octave_blob_parser(), q)));
        r
    }

    /// Send a user octave and wait for the acknowledgement.
    ///
    /// The request goes out as [`exchanged`] says; the result is the
    /// exchange's error, or what the reply reads as.
    pub fn send_user_octave(&mut self, octave: &UserOctave) -> (r: Result<(), Error>)
        ensures
            final(self).same_settings(*old(self)),
            exists|ex: Result<Vec<u8>, Error>|
                old(self).exchanged(*final(self), frame_bytes(old(self).channel_of().value_of(), USER_OCTAVE_DUMP, spec_encode_7bit(offsets_bytes(octave.0@))), ex) && reply_read(
                    ex,
                    r,
                    |b: Seq<u8>, q: Result<(), Error>| ack_checks(b, q),
                ),
    {
        let request = build_user_octave_dump(self.channel, octave);
        let reply = self.exchange(request.as_slice());
        let ghost ex = reply;
        let reply = reply?;
        let r = check_ack(reply.as_slice());
        assert(reply_read(ex, r, |b: Seq<u8>, q: Result<(), Error>| ack_checks(b, q)));
        r
    }

    /// Query the device identity with a Universal Non-Realtime Identity
    /// Request; the reply bypasses the Korg frame parser.
    ///
    /// The request goes out as [`exchanged`] says; the result is the
    /// exchange's error, or what the reply reads as.
    pub fn query_identity(&mut self) -> (r: Result<IdentityReply, Error>)
        ensures
            final(self).same_settings(*old(self)),
            exists|ex: Result<Vec<u8>, Error>|
                old(self).exchanged(*final(self), seq![0xF0u8, 0x7Eu8, old(self).channel_of().value_of(), 0x06u8, 0x01u8, 0xF7u8], ex) && reply_read(
                    ex,
                    r,
                    |b: Seq<u8>, q: Result<IdentityReply, Error>| identity_parses_as(b, q),
                ),
    {
        let request = build_identity_request(self.channel);
        let reply = self.exchange(request.as_slice());
        let ghost ex = reply;
        let reply = reply?;
        let r = parse_identity_reply(reply.as_slice());
        assert(reply_read(ex, r, |b: Seq<u8>, q: Result<IdentityReply, Error>| identity_parses_as(b, q)));
        r
    }
}

} // verus!
