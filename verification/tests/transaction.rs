//! Tests of SysEx request/response transactions over mock transports.
#![allow(unused_imports)]

use minilogue_xd::sysex::transaction::{receive_step, ReceiveStep};
use std::time::Duration;

use minilogue_xd::error::{Error, SysexError};
use minilogue_xd::message::types::U4;
use minilogue_xd::sysex::frame::{self, build_status, build_sysex, SysexStatus};
use minilogue_xd::sysex::global::{self, build_global_dump, GlobalParams};
use minilogue_xd::sysex::program::{self, ProgramData, ProgramNumber};
use minilogue_xd::sysex::transaction::SysexTransaction;
use minilogue_xd::sysex::tuning::{self, CentOffset, UserOctave, UserScale};
use minilogue_xd::transport::{MidiOutput, MockMidiInput, MockOutput};

/// An output whose every send fails.
struct FailingOutput;

impl MidiOutput for FailingOutput {
    fn send(&mut self, _bytes: &[u8]) -> Result<(), Error> {
        Err(Error::InvalidMessage("simulated send failure".to_string()))
    }
}

/// The offset `CentOffset::from_cents` makes of `semitone` and `cents`.
fn cents_offset(semitone: u8, cents: f32) -> CentOffset {
    let clamped = cents.clamp(0.0, 100.0 - (100.0 / 16384.0));
    let fraction = ((clamped * 16384.0 / 100.0).round() as u16).min(16383);
    CentOffset { semitone, fraction }
}

fn ch(n: u8) -> U4 {
    U4::new(n).expect("test channel")
}

// ===================================================================
// Happy path — request operations
// ===================================================================

#[test]
fn request_current_program_happy_path() {
    let mut output = MockOutput::new();
    let mut input = MockMidiInput::new();
    let channel = ch(0);

    let data = ProgramData::default();
    let response = program::build_current_program_dump(channel, &data);
    input.queue_response(response);

    let mut txn = SysexTransaction::new(&mut output, &mut input, channel);
    let result = txn.request_current_program().unwrap();
    assert_eq!(result, data);

    // Verify the request was sent.
    assert_eq!(output.messages().len(), 1);
    assert_eq!(output.messages()[0][6], frame::CURRENT_PROGRAM_REQUEST);
}

#[test]
fn request_program_happy_path() {
    let mut output = MockOutput::new();
    let mut input = MockMidiInput::new();
    let channel = ch(3);

    let data = ProgramData::default();
    let pn = ProgramNumber::new(42).unwrap();
    let response = program::build_program_dump(channel, pn, &data);
    input.queue_response(response);

    let mut txn = SysexTransaction::new(&mut output, &mut input, channel);
    let result = txn.request_program(pn).unwrap();
    assert_eq!(result, data);
}

#[test]
fn request_program_large_number() {
    let mut output = MockOutput::new();
    let mut input = MockMidiInput::new();
    let channel = ch(0);

    let data = ProgramData::default();
    let pn = ProgramNumber::new(499).unwrap();
    let response = program::build_program_dump(channel, pn, &data);
    input.queue_response(response);

    let mut txn = SysexTransaction::new(&mut output, &mut input, channel);
    let result = txn.request_program(pn).unwrap();
    assert_eq!(result, data);
}

#[test]
fn request_global_happy_path() {
    let mut output = MockOutput::new();
    let mut input = MockMidiInput::new();
    let channel = ch(5);

    let params = GlobalParams::default();
    let response = global::build_global_dump(channel, &params);
    input.queue_response(response);

    let mut txn = SysexTransaction::new(&mut output, &mut input, channel);
    let result = txn.request_global().unwrap();
    assert_eq!(result, params);
}

#[test]
fn request_user_scale_happy_path() {
    let mut output = MockOutput::new();
    let mut input = MockMidiInput::new();
    let channel = ch(0);

    let scale = UserScale::equal_temperament();
    let response = tuning::build_user_scale_dump(channel, &scale);
    input.queue_response(response);

    let mut txn = SysexTransaction::new(&mut output, &mut input, channel);
    let result = txn.request_user_scale().unwrap();
    assert_eq!(result, scale);
}

#[test]
fn request_user_octave_happy_path() {
    let mut output = MockOutput::new();
    let mut input = MockMidiInput::new();
    let channel = ch(0);

    let octave = UserOctave::equal_temperament();
    let response = tuning::build_user_octave_dump(channel, &octave);
    input.queue_response(response);

    let mut txn = SysexTransaction::new(&mut output, &mut input, channel);
    let result = txn.request_user_octave().unwrap();
    assert_eq!(result, octave);
}

#[test]
fn query_identity_happy_path() {
    let mut output = MockOutput::new();
    let mut input = MockMidiInput::new();
    let channel = ch(0);

    // Construct a valid identity reply.
    let reply_bytes = vec![
        0xF0, 0x7E, 0x00, 0x06, 0x02, // header
        0x42, // Korg
        0x51, 0x01, // family
        0x00, 0x00, // member
        0x02, 0x01, 0x00, 0x00, // version
        0xF7,
    ];
    input.queue_response(reply_bytes);

    let mut txn = SysexTransaction::new(&mut output, &mut input, channel);
    let reply = txn.query_identity().unwrap();
    assert_eq!(reply.manufacturer_id, 0x42);
    assert_eq!(reply.family_id, 0x0151);
}

// ===================================================================
// Happy path — send operations (ACK)
// ===================================================================

#[test]
fn send_current_program_ack() {
    let mut output = MockOutput::new();
    let mut input = MockMidiInput::new();
    let channel = ch(0);

    let ack = build_status(channel, SysexStatus::DataLoadCompleted);
    input.queue_response(ack);

    let data = ProgramData::default();
    let mut txn = SysexTransaction::new(&mut output, &mut input, channel);
    txn.send_current_program(&data).unwrap();

    // Verify the dump was sent.
    assert_eq!(output.messages().len(), 1);
    assert_eq!(output.messages()[0][6], frame::CURRENT_PROGRAM_DUMP);
}

#[test]
fn send_program_ack() {
    let mut output = MockOutput::new();
    let mut input = MockMidiInput::new();
    let channel = ch(0);

    let ack = build_status(channel, SysexStatus::DataLoadCompleted);
    input.queue_response(ack);

    let data = ProgramData::default();
    let pn = ProgramNumber::new(100).unwrap();
    let mut txn = SysexTransaction::new(&mut output, &mut input, channel);
    txn.send_program(pn, &data).unwrap();

    assert_eq!(output.messages().len(), 1);
    assert_eq!(output.messages()[0][6], frame::PROGRAM_DATA_DUMP);
}

#[test]
fn send_global_ack() {
    let mut output = MockOutput::new();
    let mut input = MockMidiInput::new();
    let channel = ch(0);

    let ack = build_status(channel, SysexStatus::DataLoadCompleted);
    input.queue_response(ack);

    let params = GlobalParams::default();
    let mut txn = SysexTransaction::new(&mut output, &mut input, channel);
    txn.send_global(&params).unwrap();
}

#[test]
fn send_user_scale_ack() {
    let mut output = MockOutput::new();
    let mut input = MockMidiInput::new();
    let channel = ch(0);

    let ack = build_status(channel, SysexStatus::DataLoadCompleted);
    input.queue_response(ack);

    let scale = UserScale::equal_temperament();
    let mut txn = SysexTransaction::new(&mut output, &mut input, channel);
    txn.send_user_scale(&scale).unwrap();
}

#[test]
fn send_user_octave_ack() {
    let mut output = MockOutput::new();
    let mut input = MockMidiInput::new();
    let channel = ch(0);

    let ack = build_status(channel, SysexStatus::DataLoadCompleted);
    input.queue_response(ack);

    let octave = UserOctave::equal_temperament();
    let mut txn = SysexTransaction::new(&mut output, &mut input, channel);
    txn.send_user_octave(&octave).unwrap();
}

// ===================================================================
// Error paths — timeout
// ===================================================================

#[test]
fn request_current_program_timeout() {
    let mut output = MockOutput::new();
    let mut input = MockMidiInput::new();
    // No response queued.

    let mut txn = SysexTransaction::new(&mut output, &mut input, ch(0));
    let err = txn.request_current_program().unwrap_err();
    let msg = err.to_string();
    assert!(msg.contains("timed out"), "got: {msg}");
}

#[test]
fn send_current_program_timeout() {
    let mut output = MockOutput::new();
    let mut input = MockMidiInput::new();
    // No ACK queued.

    let data = ProgramData::default();
    let mut txn = SysexTransaction::new(&mut output, &mut input, ch(0));
    let err = txn.send_current_program(&data).unwrap_err();
    let msg = err.to_string();
    assert!(msg.contains("timed out"), "got: {msg}");
}

#[test]
fn request_global_timeout() {
    let mut output = MockOutput::new();
    let mut input = MockMidiInput::new();

    let mut txn = SysexTransaction::new(&mut output, &mut input, ch(0));
    assert!(txn.request_global().is_err());
}

#[test]
fn request_user_scale_timeout() {
    let mut output = MockOutput::new();
    let mut input = MockMidiInput::new();

    let mut txn = SysexTransaction::new(&mut output, &mut input, ch(0));
    assert!(txn.request_user_scale().is_err());
}

#[test]
fn request_user_octave_timeout() {
    let mut output = MockOutput::new();
    let mut input = MockMidiInput::new();

    let mut txn = SysexTransaction::new(&mut output, &mut input, ch(0));
    assert!(txn.request_user_octave().is_err());
}

#[test]
fn query_identity_timeout() {
    let mut output = MockOutput::new();
    let mut input = MockMidiInput::new();

    let mut txn = SysexTransaction::new(&mut output, &mut input, ch(0));
    assert!(txn.query_identity().is_err());
}

#[test]
fn request_program_timeout() {
    let mut output = MockOutput::new();
    let mut input = MockMidiInput::new();

    let pn = ProgramNumber::new(0).unwrap();
    let mut txn = SysexTransaction::new(&mut output, &mut input, ch(0));
    assert!(txn.request_program(pn).is_err());
}

// ===================================================================
// Error paths — NAK
// ===================================================================

#[test]
fn request_current_program_nak() {
    let mut output = MockOutput::new();
    let mut input = MockMidiInput::new();
    let channel = ch(0);

    let nak = build_status(channel, SysexStatus::DataLoadError);
    input.queue_response(nak);

    let mut txn = SysexTransaction::new(&mut output, &mut input, channel);
    let err = txn.request_current_program().unwrap_err();
    let msg = err.to_string();
    assert!(msg.contains("error status"), "got: {msg}");
}

#[test]
fn send_current_program_nak() {
    let mut output = MockOutput::new();
    let mut input = MockMidiInput::new();
    let channel = ch(0);

    let nak = build_status(channel, SysexStatus::DataFormatError);
    input.queue_response(nak);

    let data = ProgramData::default();
    let mut txn = SysexTransaction::new(&mut output, &mut input, channel);
    let err = txn.send_current_program(&data).unwrap_err();
    let msg = err.to_string();
    assert!(msg.contains("Data Format Error"), "got: {msg}");
}

#[test]
fn request_global_nak() {
    let mut output = MockOutput::new();
    let mut input = MockMidiInput::new();
    let channel = ch(0);

    let nak = build_status(channel, SysexStatus::DataLoadError);
    input.queue_response(nak);

    let mut txn = SysexTransaction::new(&mut output, &mut input, channel);
    assert!(txn.request_global().is_err());
}

#[test]
fn send_global_nak() {
    let mut output = MockOutput::new();
    let mut input = MockMidiInput::new();
    let channel = ch(0);

    let nak = build_status(channel, SysexStatus::UserModuleError);
    input.queue_response(nak);

    let params = GlobalParams::default();
    let mut txn = SysexTransaction::new(&mut output, &mut input, channel);
    assert!(txn.send_global(&params).is_err());
}

#[test]
fn request_program_nak() {
    let mut output = MockOutput::new();
    let mut input = MockMidiInput::new();
    let channel = ch(0);

    // An 8-byte NAK response will be detected by raw_request_response.
    let nak = build_status(channel, SysexStatus::DataLoadError);
    input.queue_response(nak);

    let pn = ProgramNumber::new(0).unwrap();
    let mut txn = SysexTransaction::new(&mut output, &mut input, channel);
    assert!(txn.request_program(pn).is_err());
}

#[test]
fn send_user_scale_nak() {
    let mut output = MockOutput::new();
    let mut input = MockMidiInput::new();
    let channel = ch(0);

    let nak = build_status(channel, SysexStatus::DataLoadError);
    input.queue_response(nak);

    let scale = UserScale::equal_temperament();
    let mut txn = SysexTransaction::new(&mut output, &mut input, channel);
    assert!(txn.send_user_scale(&scale).is_err());
}

#[test]
fn send_user_octave_nak() {
    let mut output = MockOutput::new();
    let mut input = MockMidiInput::new();
    let channel = ch(0);

    let nak = build_status(channel, SysexStatus::DataLoadError);
    input.queue_response(nak);

    let octave = UserOctave::equal_temperament();
    let mut txn = SysexTransaction::new(&mut output, &mut input, channel);
    assert!(txn.send_user_octave(&octave).is_err());
}

// ===================================================================
// Error paths — unexpected response
// ===================================================================

#[test]
fn request_current_program_wrong_function_id() {
    let mut output = MockOutput::new();
    let mut input = MockMidiInput::new();
    let channel = ch(0);

    // Send a global dump instead of a current program dump.
    let params = GlobalParams::default();
    let wrong_response = global::build_global_dump(channel, &params);
    input.queue_response(wrong_response);

    let mut txn = SysexTransaction::new(&mut output, &mut input, channel);
    let err = txn.request_current_program().unwrap_err();
    let msg = err.to_string();
    assert!(msg.contains("unexpected response"), "got: {msg}");
}

#[test]
fn request_global_wrong_function_id() {
    let mut output = MockOutput::new();
    let mut input = MockMidiInput::new();
    let channel = ch(0);

    // Return a current program dump instead of global.
    let data = ProgramData::default();
    let wrong_response = program::build_current_program_dump(channel, &data);
    input.queue_response(wrong_response);

    let mut txn = SysexTransaction::new(&mut output, &mut input, channel);
    let err = txn.request_global().unwrap_err();
    let msg = err.to_string();
    assert!(msg.contains("unexpected response"), "got: {msg}");
}

#[test]
fn send_and_wait_ack_unexpected_response() {
    let mut output = MockOutput::new();
    let mut input = MockMidiInput::new();
    let channel = ch(0);

    // Return a request frame (not an ACK/NAK status).
    let unexpected = frame::build_sysex_request(channel, frame::GLOBAL_DATA_REQUEST);
    input.queue_response(unexpected);

    let data = ProgramData::default();
    let mut txn = SysexTransaction::new(&mut output, &mut input, channel);
    let err = txn.send_current_program(&data).unwrap_err();
    let msg = err.to_string();
    assert!(msg.contains("unexpected response"), "got: {msg}");
}

// ===================================================================
// Error paths — send failure
// ===================================================================

#[test]
fn request_current_program_send_failure() {
    let mut output = FailingOutput;
    let mut input = MockMidiInput::new();

    let mut txn = SysexTransaction::new(&mut output, &mut input, ch(0));
    let err = txn.request_current_program().unwrap_err();
    let msg = err.to_string();
    assert!(msg.contains("simulated send failure"), "got: {msg}");
}

#[test]
fn send_current_program_send_failure() {
    let mut output = FailingOutput;
    let mut input = MockMidiInput::new();

    let data = ProgramData::default();
    let mut txn = SysexTransaction::new(&mut output, &mut input, ch(0));
    assert!(txn.send_current_program(&data).is_err());
}

#[test]
fn query_identity_send_failure() {
    let mut output = FailingOutput;
    let mut input = MockMidiInput::new();

    let mut txn = SysexTransaction::new(&mut output, &mut input, ch(0));
    assert!(txn.query_identity().is_err());
}

// ===================================================================
// Configuration and accessors
// ===================================================================

#[test]
fn default_timeout_is_5_seconds() {
    let mut output = MockOutput::new();
    let mut input = MockMidiInput::new();

    let txn = SysexTransaction::new(&mut output, &mut input, ch(0));
    assert_eq!(txn.timeout(), Duration::from_secs(5));
}

#[test]
fn custom_timeout() {
    let mut output = MockOutput::new();
    let mut input = MockMidiInput::new();

    let txn = SysexTransaction::new(&mut output, &mut input, ch(0))
        .with_timeout(Duration::from_millis(500));
    assert_eq!(txn.timeout(), Duration::from_millis(500));
}

#[test]
fn channel_accessor() {
    let mut output = MockOutput::new();
    let mut input = MockMidiInput::new();

    let txn = SysexTransaction::new(&mut output, &mut input, ch(7));
    assert_eq!(txn.channel(), ch(7));
}

#[test]
fn channel_propagation_in_request() {
    let mut output = MockOutput::new();
    let mut input = MockMidiInput::new();
    let channel = ch(12);

    // Queue a valid response so the transaction completes.
    let params = GlobalParams::default();
    input.queue_response(global::build_global_dump(channel, &params));

    let mut txn = SysexTransaction::new(&mut output, &mut input, channel);
    txn.request_global().unwrap();

    // Verify channel encoding in the sent message: byte[2] = 0x30 | channel.
    let sent = &output.messages()[0];
    assert_eq!(sent[2], 0x30 | 12);
}

// ===================================================================
// NAK with various error statuses
// ===================================================================

#[test]
fn nak_user_data_crc_error() {
    let mut output = MockOutput::new();
    let mut input = MockMidiInput::new();
    let channel = ch(0);

    let nak = build_status(channel, SysexStatus::UserDataCrcError);
    input.queue_response(nak);

    let mut txn = SysexTransaction::new(&mut output, &mut input, channel);
    let err = txn.request_current_program().unwrap_err();
    let msg = err.to_string();
    assert!(msg.contains("User Data CRC Error"), "got: {msg}");
}

#[test]
fn nak_user_target_error() {
    let mut output = MockOutput::new();
    let mut input = MockMidiInput::new();
    let channel = ch(0);

    let nak = build_status(channel, SysexStatus::UserTargetError);
    input.queue_response(nak);

    let mut txn = SysexTransaction::new(&mut output, &mut input, channel);
    let err = txn.request_user_scale().unwrap_err();
    let msg = err.to_string();
    assert!(msg.contains("User Target Error"), "got: {msg}");
}

// ===================================================================
// Multiple operations on one transaction
// ===================================================================

#[test]
fn multiple_operations_sequential() {
    let mut output = MockOutput::new();
    let mut input = MockMidiInput::new();
    let channel = ch(0);

    // Queue responses for two operations.
    let params = GlobalParams::default();
    input.queue_response(global::build_global_dump(channel, &params));

    let data = ProgramData::default();
    input.queue_response(program::build_current_program_dump(channel, &data));

    let mut txn = SysexTransaction::new(&mut output, &mut input, channel);

    let g = txn.request_global().unwrap();
    assert_eq!(g, params);

    let p = txn.request_current_program().unwrap();
    assert_eq!(p, data);

    assert_eq!(output.messages().len(), 2);
}

// ===================================================================
// Tuning with custom data
// ===================================================================

#[test]
fn request_user_scale_custom_data() {
    let mut output = MockOutput::new();
    let mut input = MockMidiInput::new();
    let channel = ch(0);

    let mut scale = UserScale::equal_temperament();
    // Modify one note.
    scale.0[60] = cents_offset(60, 50.0);

    let response = tuning::build_user_scale_dump(channel, &scale);
    input.queue_response(response);

    let mut txn = SysexTransaction::new(&mut output, &mut input, channel);
    let result = txn.request_user_scale().unwrap();
    assert_eq!(result.0[60].semitone, 60);
}

#[test]
fn request_user_octave_custom_data() {
    let mut output = MockOutput::new();
    let mut input = MockMidiInput::new();
    let channel = ch(0);

    let mut octave = UserOctave::equal_temperament();
    octave.0[6] = cents_offset(6, 25.0);

    let response = tuning::build_user_octave_dump(channel, &octave);
    input.queue_response(response);

    let mut txn = SysexTransaction::new(&mut output, &mut input, channel);
    let result = txn.request_user_octave().unwrap();
    assert_eq!(result.0[6].semitone, 6);
}

// ===================================================================
// Error display tests for new SysexError variants
// ===================================================================

#[test]
fn timeout_error_display() {
    let e: minilogue_xd::error::Error = SysexError::Timeout(Duration::from_millis(500)).into();
    let msg = e.to_string();
    assert!(msg.contains("timed out"), "got: {msg}");
    assert!(msg.contains("500ms"), "got: {msg}");
}

#[test]
fn nak_received_error_display() {
    let e: minilogue_xd::error::Error = SysexError::NakReceived(SysexStatus::DataLoadError).into();
    let msg = e.to_string();
    assert!(msg.contains("Data Load Error"), "got: {msg}");
}

#[test]
fn unexpected_response_error_display() {
    let e: minilogue_xd::error::Error = SysexError::UnexpectedResponse(0x51).into();
    let msg = e.to_string();
    assert!(msg.contains("0x51"), "got: {msg}");
}

#[test]
fn receive_step_decisions() {
    assert_eq!(receive_step(10, &Some(vec![0xF0, 0x42, 0xF7])), ReceiveStep::Deliver);
    assert_eq!(receive_step(0, &Some(vec![0xF0, 0xF7])), ReceiveStep::Deliver);
    assert_eq!(receive_step(10, &Some(vec![0xF8])), ReceiveStep::Skip);
    assert_eq!(receive_step(0, &Some(vec![0xFE])), ReceiveStep::TimedOut);
    assert_eq!(receive_step(10, &Some(vec![])), ReceiveStep::Skip);
    assert_eq!(receive_step(10, &None), ReceiveStep::TimedOut);
}
