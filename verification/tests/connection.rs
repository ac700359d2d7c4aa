//! Tests of the connection to the device.
#![allow(unused_imports)]

use minilogue_xd::connection::MinilogueXd;
use minilogue_xd::message::{MidiMessage, NoteOn, TimingClock, U4, U7};
use minilogue_xd::transport::MockOutput;

#[test]
fn send_message_via_mock() {
    let mock = MockOutput::new();
    let channel = U4::new(0).unwrap();
    let mut xd = MinilogueXd::new(mock, channel);

    let msg = MidiMessage::NoteOn(NoteOn {
        channel,
        key: U7::new(60).unwrap(),
        velocity: U7::new(100).unwrap(),
    });

    xd.send_message(&msg).unwrap();

    let sent = xd.output().last_message().unwrap();
    assert_eq!(sent, &[0x90, 60, 100]);
}

#[test]
fn channel_getter() {
    let mock = MockOutput::new();
    let channel = U4::new(5).unwrap();
    let xd = MinilogueXd::new(mock, channel);
    assert_eq!(xd.channel().value(), 5);
}

#[test]
fn send_multiple_messages() {
    let mock = MockOutput::new();
    let channel = U4::new(0).unwrap();
    let mut xd = MinilogueXd::new(mock, channel);

    let note_on = MidiMessage::NoteOn(NoteOn {
        channel,
        key: U7::new(60).unwrap(),
        velocity: U7::new(100).unwrap(),
    });
    let clock = MidiMessage::TimingClock(TimingClock);

    xd.send_message(&note_on).unwrap();
    xd.send_message(&clock).unwrap();

    assert_eq!(xd.output().messages().len(), 2);
    assert_eq!(xd.output().messages()[0], vec![0x90, 60, 100]);
    assert_eq!(xd.output().messages()[1], vec![0xF8]);
}
