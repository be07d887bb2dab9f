//! Pinned mid-curve values: these go through the transcendental kernels at
//! points where the exponential and sine genuinely shape the result, so a
//! broken kernel shows up as a wrong level.

use midi_cv::{correct_brightness, BinaryDisplay};

#[test]
fn brightness_curve_midpoints() {
    // halfway in: e^2.5 against e^5, plus the low-end boost
    assert_eq!(correct_brightness(32768), 5255);
    // a quarter in: e^1.25 against e^5
    assert_eq!(correct_brightness(16384), 1491);
}

#[test]
fn breathing_offset_at_three_eighths_period() {
    // three eighths of a second into a one-second breath the phase angle is
    // three quarters pi, where the sine is well away from its clamp range
    let mut d = BinaryDisplay::new();
    d.set(0);
    d.enable_breathing(1000, 15000, 0);
    d.update(375);
    assert_eq!(d.time, 375);
    assert_eq!(d.levels[0], 1123);
}
