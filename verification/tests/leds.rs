//! Display curve engine: brightness correction and breathing animation.

use midi_cv::{correct_brightness, BinaryDisplay};

#[test]
fn brightness_maps_zero_to_zero() {
    assert_eq!(correct_brightness(0), 0);
}

#[test]
fn brightness_maps_full_scale_to_full_scale() {
    assert_eq!(correct_brightness(65535), 65535);
}

#[test]
fn brightness_is_monotonic_up_to_kernel_error() {
    // The fixed-point exponential kernel carries a small truncation error,
    // so single steps may dip by a few code units (the hardware cannot
    // show a dip that small); beyond that error the curve never decreases.
    let mut prev = correct_brightness(0);
    for v in 1..=65535u16 {
        let cur = correct_brightness(v);
        assert!(
            cur as u32 + 16 >= prev as u32,
            "brightness correction dropped at input {}: {} -> {}",
            v,
            prev,
            cur
        );
        prev = cur;
    }
}

#[test]
fn brightness_increases_over_coarse_grid() {
    let mut prev = correct_brightness(0);
    let mut v: u32 = 4096;
    while v <= 65535 {
        let cur = correct_brightness(v as u16);
        assert!(cur > prev, "not increasing at input {}", v);
        prev = cur;
        v += 4096;
    }
}

#[test]
fn brightness_boosts_low_end() {
    // the additive term lifts low inputs above the bare exponential curve,
    // which would round small values to zero
    let low = correct_brightness(2000);
    assert!(low > 0);
    assert!(low < 2000);
}

#[test]
fn bits_select_on_and_off_levels() {
    let mut d = BinaryDisplay::new();
    d.set(0b00101);
    d.update(0);
    let on = correct_brightness(65535);
    let off = correct_brightness(0);
    assert_eq!(d.levels, vec![on, off, on, off, off]);
    d.set_bit(1);
    d.clear_bit(0);
    d.update(0);
    assert_eq!(d.levels, vec![off, on, on, off, off]);
}

#[test]
fn breathing_offset_returns_after_one_period() {
    let mut d = BinaryDisplay::new();
    // one hertz: a one-second period
    d.enable_breathing(1000, 15000, 4000);
    d.update(250);
    let phase = d.time;
    let levels = d.levels.clone();
    // advance by exactly one period: same phase, same levels
    d.update(1000);
    assert_eq!(d.time, phase);
    assert_eq!(d.levels, levels);
    // and again, from a different starting phase
    d.update(300);
    let phase2 = d.time;
    let levels2 = d.levels.clone();
    d.update(1000);
    assert_eq!(d.time, phase2);
    assert_eq!(d.levels, levels2);
}

#[test]
fn breathing_levels_stay_inside_range_and_move() {
    let mut d = BinaryDisplay::new();
    d.set(0b11111);
    d.enable_breathing(1000, 20000, 4000);
    let mut distinct = 0;
    let mut last = None;
    for _ in 0..20 {
        d.update(50);
        let l = d.levels[0];
        if last != Some(l) {
            distinct += 1;
        }
        last = Some(l);
    }
    // the animation actually modulates the level
    assert!(distinct > 2);
}

#[test]
fn disable_breathing_restores_full_range() {
    let mut d = BinaryDisplay::new();
    d.enable_breathing(7000, 15000, 4000);
    assert_eq!(d.on_level, 46535);
    assert_eq!(d.off_level, 4000);
    d.disable_breathing();
    assert_eq!(d.on_level, 65535);
    assert_eq!(d.off_level, 0);
    d.set(0b00001);
    d.update(10);
    assert_eq!(d.levels[0], 65535);
    assert_eq!(d.levels[1], 0);
}

#[test]
fn brightness_test_sweeps_all_leds_together() {
    let mut d = BinaryDisplay::new();
    d.brightness_test(500);
    // a quarter of the two-second cycle: a quarter of full scale, corrected
    let expected = correct_brightness(((500u32 * 65535) / 2000) as u16);
    assert_eq!(d.levels, vec![expected; 5]);
    assert_eq!(d.time, 500);
}
