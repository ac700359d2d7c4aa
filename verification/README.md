# minilogue-xd

A library for the Korg Minilogue XD synthesizer, written in Verus: its
logic carries `requires`/`ensures` contracts that Verus proves.

## Layout

- `src/codec.rs`: the Korg 7-bit SysEx codec.
- `src/sysex/`: SysEx framing (`frame`), the global and program data blobs
  (`global`, `program/synth`, `program/sequencer`, `program`), tuning tables
  and MTS messages (`tuning`), user module data (`user_module`), identity
  and poly chain messages, the request/response logic (`transaction`), and
  the `.mnlgxdprog` and `.mnlgxdlib` files, zip archives made and read in
  memory through the `zip` crate (`program/file`).
- `src/param/enums.rs`, `src/sysex/enums.rs`: the stepped parameters and
  their byte values.
- `src/message/`: range-checked MIDI integers and the channel messages that a
  `connection::MinilogueXd` sends.
- `src/transport.rs`: the `MidiOutput` and `MidiInput` traits and in-memory
  test doubles.
- `app/`: ports backed by `midir`, program files on seekable streams,
  floating-point unit conversions, and an error type with
  `std::error::Error`.

Round trips (read back what was written; write back what was read) are
stated as proof functions next to the code they are about, named
`lemma_*_round_trip` and `lemma_*_rewrite`.
