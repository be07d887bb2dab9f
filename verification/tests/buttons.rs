//! Button state machine: edges, long presses, and the swallow flag.

use midi_cv::{do_calibrate, Button, Event};

#[test]
fn press_and_release_short() {
    let mut b = Button::new(Some(3));
    assert_eq!(b.poll(false), Event::Unpressed);
    assert_eq!(b.poll(true), Event::Down);
    assert_eq!(b.poll(true), Event::Pressed);
    assert_eq!(b.poll(false), Event::Up);
    assert_eq!(b.poll(false), Event::Unpressed);
}

#[test]
fn long_press_fires_once_at_threshold_plus_one() {
    let mut b = Button::new(Some(3));
    assert_eq!(b.poll(true), Event::Down);
    // held: ticks one through three stay short of the threshold
    assert_eq!(b.poll(true), Event::Pressed);
    assert_eq!(b.poll(true), Event::Pressed);
    assert_eq!(b.poll(true), Event::Pressed);
    // tick four crosses it, exactly once
    assert_eq!(b.poll(true), Event::DownLong);
    assert_eq!(b.poll(true), Event::Pressed);
    assert_eq!(b.poll(true), Event::Pressed);
    assert_eq!(b.poll(false), Event::UpLong);
}

#[test]
fn release_after_long_press_reports_up_long() {
    let mut b = Button::new(Some(0));
    assert_eq!(b.poll(true), Event::Down);
    assert_eq!(b.poll(true), Event::DownLong);
    assert_eq!(b.poll(false), Event::UpLong);
    // the next press starts a fresh cycle
    assert_eq!(b.poll(true), Event::Down);
    assert_eq!(b.poll(false), Event::Up);
}

#[test]
fn threshold_none_disables_long_press() {
    let mut b = Button::new(None);
    assert_eq!(b.poll(true), Event::Down);
    for _ in 0..1000 {
        assert_eq!(b.poll(true), Event::Pressed);
    }
    assert_eq!(b.poll(false), Event::Up);
}

#[test]
fn ignore_suppresses_until_release() {
    let mut b = Button::new(Some(3));
    assert_eq!(b.poll(true), Event::Down);
    b.ignore_next_press();
    // held: swallowed
    assert_eq!(b.poll(true), Event::Unpressed);
    assert_eq!(b.poll(true), Event::Unpressed);
    // the release completes the swallow and stays silent
    assert_eq!(b.poll(false), Event::Unpressed);
    // normal reporting resumes with the next press
    assert_eq!(b.poll(true), Event::Down);
    assert_eq!(b.poll(false), Event::Up);
}

#[test]
fn ignore_while_inactive_swallows_whole_press() {
    let mut b = Button::new(Some(3));
    b.ignore_next_press();
    assert_eq!(b.poll(false), Event::Unpressed);
    assert_eq!(b.poll(true), Event::Unpressed);
    assert_eq!(b.poll(true), Event::Unpressed);
    assert_eq!(b.poll(false), Event::Unpressed);
    assert_eq!(b.poll(true), Event::Down);
}

#[test]
fn calibration_gesture_needs_both_buttons() {
    let mut a = Button::new(Some(600));
    let mut b = Button::new(Some(600));
    assert!(!do_calibrate(&mut a, &mut b, true, false));
    assert_eq!(a.poll(true), Event::Down);
    assert_eq!(b.poll(true), Event::Down);

    let mut a = Button::new(Some(600));
    let mut b = Button::new(Some(600));
    assert!(do_calibrate(&mut a, &mut b, true, true));
    // the gesture press is swallowed on both buttons
    assert_eq!(a.poll(true), Event::Unpressed);
    assert_eq!(b.poll(true), Event::Unpressed);
    assert_eq!(a.poll(false), Event::Unpressed);
    assert_eq!(b.poll(false), Event::Unpressed);
    assert_eq!(a.poll(true), Event::Down);
    assert_eq!(b.poll(true), Event::Down);
}
