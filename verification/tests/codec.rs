//! Tests of the Korg 7-bit codec.
#![allow(unused_imports)]

use minilogue_xd::codec::{decode_7bit, encode_7bit};
use minilogue_xd::error::Error;

// ---------------------------------------------------------------
// 1. Round-trip identity for lengths 0 through 21
// ---------------------------------------------------------------
#[test]
fn round_trip_identity_0_through_21() {
    for len in 0..=21 {
        let data: Vec<u8> = (0..len).map(|i| (i * 37) as u8).collect();
        let encoded = encode_7bit(&data);
        let decoded = decode_7bit(&encoded).unwrap();
        assert_eq!(decoded, data, "round-trip failed for length {len}");
    }
}

// ---------------------------------------------------------------
// 2. Known size vectors
// ---------------------------------------------------------------
#[test]
fn wire_length_336_bytes() {
    let data = vec![0xAB; 336];
    let wire = encode_7bit(&data);
    assert_eq!(wire.len(), 384);
}

#[test]
fn wire_length_32_bytes() {
    let data = vec![0x00; 32];
    let wire = encode_7bit(&data);
    // 32 / 7 = 4 full groups (4*8=32), remainder 4 -> 4+1=5, total 37
    assert_eq!(wire.len(), 37);
}

#[test]
fn wire_length_9_bytes() {
    let data = vec![0x00; 9];
    let wire = encode_7bit(&data);
    // 9 / 7 = 1 full group (8), remainder 2 -> 2+1=3, total 11
    assert_eq!(wire.len(), 11);
}

// ---------------------------------------------------------------
// 3. Error on high bit set
// ---------------------------------------------------------------
#[test]
fn decode_error_on_high_bit() {
    let wire = vec![0x00, 0x80];
    let result = decode_7bit(&wire);
    assert!(result.is_err());
    match result {
        Err(Error::Codec(msg)) => {
            assert!(msg.contains("high bit set"), "unexpected message: {msg}");
        }
        other => panic!("expected Error::Codec, got {other:?}"),
    }
}

#[test]
fn decode_error_various_positions() {
    for pos in 0..8 {
        let mut wire = vec![0x00; 8];
        wire[pos] = 0xFF;
        assert!(
            decode_7bit(&wire).is_err(),
            "should error with high bit at position {pos}"
        );
    }
}

// ---------------------------------------------------------------
// 4. Empty input
// ---------------------------------------------------------------
#[test]
fn encode_empty() {
    assert!(encode_7bit(&[]).is_empty());
}

#[test]
fn decode_empty() {
    assert_eq!(decode_7bit(&[]).unwrap(), Vec::<u8>::new());
}

// ---------------------------------------------------------------
// 5. Wire length formula verification
// ---------------------------------------------------------------
#[test]
fn wire_length_formula() {
    for n in 0..=300 {
        let data = vec![0u8; n];
        let wire = encode_7bit(&data);
        let expected = (n / 7) * 8 + if n % 7 > 0 { n % 7 + 1 } else { 0 };
        assert_eq!(
            wire.len(),
            expected,
            "wire length mismatch for {n} data bytes"
        );
    }
}

// ---------------------------------------------------------------
// 6. Specific known values
// ---------------------------------------------------------------
#[test]
fn encode_known_values_ff_80_00() {
    let data = [0xFF, 0x80, 0x00];
    let wire = encode_7bit(&data);
    // MSB byte: bit 0 set (0xFF has high bit), bit 1 set (0x80 has high bit),
    //           bit 2 clear (0x00) -> 0b0000_0011 = 0x03
    // Data bytes with bit 7 cleared: 0x7F, 0x00, 0x00
    assert_eq!(wire, vec![0x03, 0x7F, 0x00, 0x00]);

    let decoded = decode_7bit(&wire).unwrap();
    assert_eq!(decoded, data.to_vec());
}

#[test]
fn encode_known_values_all_high() {
    let data = [0xFF; 7];
    let wire = encode_7bit(&data);
    // MSB byte: all 7 bits set -> 0b0111_1111 = 0x7F
    // Data bytes: all 0x7F
    assert_eq!(wire, vec![0x7F, 0x7F, 0x7F, 0x7F, 0x7F, 0x7F, 0x7F, 0x7F]);

    let decoded = decode_7bit(&wire).unwrap();
    assert_eq!(decoded, data.to_vec());
}

#[test]
fn encode_known_values_all_zero() {
    let data = [0x00; 7];
    let wire = encode_7bit(&data);
    assert_eq!(wire, vec![0x00, 0x00, 0x00, 0x00, 0x00, 0x00, 0x00, 0x00]);

    let decoded = decode_7bit(&wire).unwrap();
    assert_eq!(decoded, data.to_vec());
}

// ---------------------------------------------------------------
// Proptest: round-trip for arbitrary data
// ---------------------------------------------------------------
/// Round trip over a spread of lengths and byte patterns (a simple
/// deterministic generator in place of random inputs).
#[test]
fn round_trip_arbitrary() {
    let mut state: u32 = 0x1234_5678;
    for len in 0..256usize {
        let mut data = Vec::with_capacity(len);
        for _ in 0..len {
            state = state.wrapping_mul(1_664_525).wrapping_add(1_013_904_223);
            data.push((state >> 24) as u8);
        }
        let encoded = encode_7bit(&data);
        let decoded = decode_7bit(&encoded).unwrap();
        assert_eq!(decoded, data);
    }
}
