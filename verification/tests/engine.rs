//! The monophonic engine end to end: MIDI dispatch, triggers, learning.

use midi_cv::{MidiMessage, Mono, Outputs, Settings, TriggerLength};

#[test]
fn trigger_lengths_in_microseconds() {
    assert_eq!(TriggerLength::T50us.to_micros(), 50);
    assert_eq!(TriggerLength::T500us.to_micros(), 500);
    assert_eq!(TriggerLength::T1ms.to_micros(), 1000);
    assert_eq!(TriggerLength::T5ms.to_micros(), 5000);
    assert_eq!(TriggerLength::T25ms.to_micros(), 25000);
}

#[test]
fn note_on_fires_gate_trigger_and_velocity_cv() {
    let mut m = Mono::default();
    let mut o = Outputs::new();
    let s = Settings::default();
    m.handle_midi_event(MidiMessage::NoteOn(0, 60, 100), &mut o, &s);
    // voice gate on the first gate, trigger pulse on the second
    assert_eq!(o.gates[0], true);
    assert_eq!(o.gates[1], true);
    // pitch on the first CV, velocity on the second
    assert_eq!(o.dac.codes[0], 1500);
    assert_eq!(o.dac.codes[1], 3149);
}

#[test]
fn note_off_releases_gate_without_retrigger() {
    let mut m = Mono::default();
    let mut o = Outputs::new();
    let s = Settings::default();
    m.handle_midi_event(MidiMessage::NoteOn(0, 60, 100), &mut o, &s);
    // let the trigger pulse finish (default length five milliseconds)
    m.update(6000, &mut o);
    assert_eq!(o.gates[1], false);
    m.handle_midi_event(MidiMessage::NoteOff(0, 60, 0), &mut o, &s);
    assert_eq!(o.gates[0], false);
    // no note remains, so no new articulation
    assert_eq!(o.gates[1], false);
}

#[test]
fn note_off_with_remaining_note_retriggers() {
    let mut m = Mono::default();
    let mut o = Outputs::new();
    let s = Settings::default();
    m.handle_midi_event(MidiMessage::NoteOn(0, 60, 100), &mut o, &s);
    m.handle_midi_event(MidiMessage::NoteOn(0, 64, 100), &mut o, &s);
    m.update(6000, &mut o);
    assert_eq!(o.gates[1], false);
    m.handle_midi_event(MidiMessage::NoteOff(0, 64, 0), &mut o, &s);
    // the exposed note re-articulates: trigger armed again, pitch restored
    assert_eq!(o.gates[1], true);
    assert_eq!(o.dac.codes[0], 1500);
    assert_eq!(o.gates[0], true);
}

#[test]
fn other_channel_is_ignored() {
    let mut m = Mono::default();
    let mut o = Outputs::new();
    let s = Settings::default();
    m.handle_midi_event(MidiMessage::NoteOn(3, 60, 100), &mut o, &s);
    assert_eq!(o.gates, vec![false; 6]);
    assert_eq!(o.dac.codes, vec![0, 0, 0, 0]);
}

#[test]
fn mod_wheel_drives_third_cv() {
    let mut m = Mono::default();
    let mut o = Outputs::new();
    let s = Settings::default();
    m.handle_midi_event(MidiMessage::ControlChange(0, 1, 127), &mut o, &s);
    assert_eq!(o.dac.codes[2], 4000);
    assert_eq!(o.dac.codes[3], 0);
}

#[test]
fn learned_controller_drives_fourth_cv() {
    let mut m = Mono::default();
    let mut o = Outputs::new();
    let s = Settings::default();
    m.handle_midi_learn(MidiMessage::ControlChange(0, 7, 0), &mut o);
    m.handle_midi_event(MidiMessage::ControlChange(0, 7, 64), &mut o, &s);
    assert_eq!(o.dac.codes[3], 2015);
}

#[test]
fn learn_picks_channel_from_note_on() {
    let mut m = Mono::default();
    let mut o = Outputs::new();
    let s = Settings::default();
    m.handle_midi_learn(MidiMessage::NoteOn(5, 60, 100), &mut o);
    // nothing played yet, but the channel moved
    assert_eq!(o.gates, vec![false; 6]);
    m.handle_midi_event(MidiMessage::NoteOn(0, 60, 100), &mut o, &s);
    assert_eq!(o.gates[0], false);
    m.handle_midi_event(MidiMessage::NoteOn(5, 60, 100), &mut o, &s);
    assert_eq!(o.gates[0], true);
}

#[test]
fn learn_blinks_acknowledge_gate() {
    let mut m = Mono::default();
    let mut o = Outputs::new();
    m.handle_midi_learn(MidiMessage::ControlChange(0, 7, 0), &mut o);
    // the learn blink runs on the fourth gate for a tenth of a second
    assert_eq!(o.gates[3], true);
    m.update(50_000, &mut o);
    assert_eq!(o.gates[3], true);
    m.update(50_001, &mut o);
    assert_eq!(o.gates[3], false);
}

#[test]
fn learn_ignores_mod_wheel_and_other_channels() {
    let mut m = Mono::default();
    let mut o = Outputs::new();
    m.handle_midi_learn(MidiMessage::ControlChange(0, 1, 0), &mut o);
    assert_eq!(o.gates[3], false);
    m.handle_midi_learn(MidiMessage::ControlChange(9, 7, 0), &mut o);
    assert_eq!(o.gates[3], false);
}

#[test]
fn trigger_pulse_terminates_without_midi() {
    let mut m = Mono::default();
    let mut o = Outputs::new();
    let s = Settings::default();
    m.handle_midi_event(MidiMessage::NoteOn(0, 60, 100), &mut o, &s);
    assert_eq!(o.gates[1], true);
    // five-millisecond pulse: still high within the window
    m.update(3000, &mut o);
    assert_eq!(o.gates[1], true);
    m.update(2000, &mut o);
    assert_eq!(o.gates[1], true);
    // the accumulated time exceeds the length: released exactly once
    m.update(1, &mut o);
    assert_eq!(o.gates[1], false);
    // further updates change nothing
    m.update(1_000_000, &mut o);
    assert_eq!(o.gates[1], false);
}

#[test]
fn settings_defaults() {
    let s = Settings::default();
    assert!(!s.legato);
    assert!(!s.trigger_scaling);
    assert_eq!(s.trigger_length.to_micros(), 5000);
}
