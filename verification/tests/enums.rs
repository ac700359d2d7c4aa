//! Tests of the SysEx enums.

use minilogue_xd::sysex::enums::{DamperPolarity, StepResolution, VelocityCurve};

#[test]
fn damper_polarity_gap_value_2() {
    assert!(DamperPolarity::from_byte(2).is_err());
}

#[test]
fn velocity_curve_gap_value_9() {
    assert!(VelocityCurve::from_byte(9).is_err());
}

#[test]
fn step_resolution_bytes_and_labels() {
    assert_eq!(StepResolution::Sixteenth.to_byte(), 0);
    assert_eq!(StepResolution::from_byte(2).unwrap(), StepResolution::Quarter);
    assert_eq!(StepResolution::Eighth.to_string(), "1/8");
    assert!(StepResolution::from_byte(255).is_err());
}
