//! The monophonic performance mode: MIDI dispatch to voice, triggers and
//! auxiliary CVs.
//!
//! Decoded MIDI messages arrive as plain values; the byte-stream parser
//! lives outside the crate. Messages on the learned channel drive the
//! voice allocator, fire the trigger pulse and update the velocity and
//! controller CVs; the learn handler picks up the channel and an extra
//! controller number from incoming traffic.

use crate::outputs::Cv;
use crate::outputs::Gate;
use crate::outputs::Outputs;
use crate::outputs::cv7_voltage_bits;
use crate::outputs::note_voltage_bits;
use crate::outputs::voltage_code;
use crate::settings::Settings;
use crate::trigger::Trigger;
use crate::voice::VOICE_CAPACITY;
use crate::voice::Voice;
use crate::voice::on_active;
use crate::voice::off_active;
use vstd::prelude::*;

verus! {

/// The controller number of the modulation wheel.
pub const MOD_WHEEL_CC: u8 = 1;

/// A decoded MIDI performance message: channel, then note or controller
/// number, then velocity or controller value.
#[derive(Clone, Copy, PartialEq, Eq, Debug)]
pub enum MidiMessage {
    NoteOn(u8, u8, u8),
    NoteOff(u8, u8, u8),
    ControlChange(u8, u8, u8),
}

/// What the learn menu has picked up: the MIDI channel to listen on and
/// the controller routed to the auxiliary CV.
#[derive(Clone, Copy, PartialEq, Eq, Debug)]
pub struct MonoSettings {
    pub midi_channel: u8,
    pub midi_cc: u8,
}

/// The monophonic voice engine: one voice, its trigger pulse, and a
/// second pulse that blinks a gate to acknowledge MIDI learn.
pub struct Mono {
    pub settings: MonoSettings,
    pub voice: Voice,
    pub trigger: Trigger,
    pub learn_visualizer: Trigger,
}

impl Default for Mono {
    /// The engine wired to its fixed outputs: voice gate and pitch CV on
    /// the first gate and CV, trigger pulses on the second gate, learn
    /// blink on the fourth.
    fn default() -> (m: Mono)
        ensures
            m.wf(),
            m.settings == (MonoSettings { midi_channel: 0, midi_cc: 0 }),
            m.voice.gate == Gate::G1 && m.voice.cv == Cv::Cv1,
            m.voice.memory@.len() == 0 && m.voice.active == 0,
            m.trigger == Trigger::spec_idle(Gate::G2),
            m.learn_visualizer == Trigger::spec_idle(Gate::G4),
    {
        Mono {
            settings: MonoSettings { midi_channel: 0, midi_cc: 0 },
            voice: Voice::new(Gate::G1, Cv::Cv1),
            trigger: Trigger::new(Gate::G2),
            learn_visualizer: Trigger::new(Gate::G4),
        }
    }
}

impl Mono {
    pub open spec fn wf(self) -> bool {
        self.voice.wf()
    }

    /// Dispatch one decoded MIDI message on the learned channel: a note-on
    /// feeds the voice and, when the voice asks for a new articulation,
    /// fires the trigger pulse and sets the velocity CV; a note-off
    /// releases the note and can likewise re-fire the trigger; the mod
    /// wheel and the learned controller set their own CVs. Messages on
    /// other channels are ignored.
    pub fn handle_midi_event(&mut self, msg: MidiMessage, outputs: &mut Outputs, settings: &Settings)
        requires
            old(self).wf(),
            old(outputs).wf(),
        ensures
            final(self).wf(),
            final(outputs).wf(),
            final(self).settings == old(self).settings,
            final(self).voice.gate == old(self).voice.gate,
            final(self).voice.cv == old(self).voice.cv,
            final(self).learn_visualizer == old(self).learn_visualizer,
            final(outputs).dac.calibration == old(outputs).dac.calibration,
            ({
                let m = *old(self);
                let o = *old(outputs);
                match msg {
                    MidiMessage::NoteOn(ch, note, vel) => if ch == m.settings.midi_channel {
                        let s = m.voice.memory@;
                        let accepted = !s.contains(note) && s.len() < VOICE_CAPACITY;
                        let a2 = on_active(
                            settings.note_priority,
                            s,
                            m.voice.active as int,
                            note,
                        );
                        let retrig = accepted && (!settings.legato || s.len() == 0);
                        let gates1 = if accepted && s.len() == 0 {
                            o.gates@.update(m.voice.gate.spec_index(), true)
                        } else {
                            o.gates@
                        };
                        let codes1 = if accepted && (s.len() == 0 || a2 != m.voice.active as int) {
                            o.dac.codes@.update(
                                m.voice.cv.spec_channel().spec_index(),
                                voltage_code(
                                    o.dac.calibration@[m.voice.cv.spec_channel().spec_index()]@,
                                    note_voltage_bits(s.push(note)[a2]),
                                ) as u16,
                            )
                        } else {
                            o.dac.codes@
                        };
                        &&& final(self).voice.memory@ == (if accepted {
                            s.push(note)
                        } else {
                            s
                        })
                        &&& final(self).voice.active as int == (if accepted {
                            a2
                        } else {
                            m.voice.active as int
                        })
                        &&& final(self).trigger == (if retrig {
                            Trigger {
                                gate: m.trigger.gate,
                                time: 0,
                                length: settings.trigger_length.spec_micros(),
                                is_active: true,
                            }
                        } else {
                            m.trigger
                        })
                        &&& final(outputs).gates@ == (if retrig {
                            gates1.update(m.trigger.gate.spec_index(), true)
                        } else {
                            gates1
                        })
                        &&& final(outputs).dac.codes@ == (if retrig {
                            codes1.update(
                                Cv::Cv2.spec_channel().spec_index(),
                                voltage_code(
                                    o.dac.calibration@[Cv::Cv2.spec_channel().spec_index()]@,
                                    cv7_voltage_bits(vel),
                                ) as u16,
                            )
                        } else {
                            codes1
                        })
                    } else {
                        *final(self) == m && *final(outputs) == o
                    },
                    MidiMessage::NoteOff(ch, note, _vel) => if ch == m.settings.midi_channel {
                        let s = m.voice.memory@;
                        let held = s.contains(note);
                        let f = s.index_of(note);
                        let t = s.remove(f);
                        let was_active = f == m.voice.active as int;
                        let a2 = off_active(settings.note_priority, t);
                        let retrig = held && !settings.legato && t.len() > 0;
                        let gates1 = if held && was_active && t.len() == 0 {
                            o.gates@.update(m.voice.gate.spec_index(), false)
                        } else {
                            o.gates@
                        };
                        let codes1 = if held && was_active && t.len() > 0 {
                            o.dac.codes@.update(
                                m.voice.cv.spec_channel().spec_index(),
                                voltage_code(
                                    o.dac.calibration@[m.voice.cv.spec_channel().spec_index()]@,
                                    note_voltage_bits(t[a2]),
                                ) as u16,
                            )
                        } else {
                            o.dac.codes@
                        };
                        &&& final(self).voice.memory@ == (if held {
                            t
                        } else {
                            s
                        })
                        &&& final(self).voice.active as int == (if !held {
                            m.voice.active as int
                        } else if was_active {
                            a2
                        } else if f < m.voice.active as int {
                            m.voice.active - 1
                        } else {
                            m.voice.active as int
                        })
                        &&& final(self).trigger == (if retrig {
                            Trigger {
                                gate: m.trigger.gate,
                                time: 0,
                                length: settings.trigger_length.spec_micros(),
                                is_active: true,
                            }
                        } else {
                            m.trigger
                        })
                        &&& final(outputs).gates@ == (if retrig {
                            gates1.update(m.trigger.gate.spec_index(), true)
                        } else {
                            gates1
                        })
                        &&& final(outputs).dac.codes@ == codes1
                    } else {
                        *final(self) == m && *final(outputs) == o
                    },
                    MidiMessage::ControlChange(ch, cc, val) => {
                        &&& *final(self) == m
                        &&& (if ch == m.settings.midi_channel && cc == MOD_WHEEL_CC {
                            final(outputs).dac.codes@ == o.dac.codes@.update(
                                Cv::Cv3.spec_channel().spec_index(),
                                voltage_code(
                                    o.dac.calibration@[Cv::Cv3.spec_channel().spec_index()]@,
                                    cv7_voltage_bits(val),
                                ) as u16,
                            ) && final(outputs).gates@ == o.gates@
                        } else if ch == m.settings.midi_channel && cc != MOD_WHEEL_CC && cc
                            == m.settings.midi_cc {
                            final(outputs).dac.codes@ == o.dac.codes@.update(
                                Cv::Cv4.spec_channel().spec_index(),
                                voltage_code(
                                    o.dac.calibration@[Cv::Cv4.spec_channel().spec_index()]@,
                                    cv7_voltage_bits(val),
                                ) as u16,
                            ) && final(outputs).gates@ == o.gates@
                        } else {
                            *final(outputs) == o
                        })
                    },
                }
            }),
    {
        match msg {
            MidiMessage::NoteOn(ch, note, vel) => {
                if ch == self.settings.midi_channel {
                    if self.voice.note_on(note, outputs, settings) {
                        self.trigger.trigger(settings.trigger_length.to_micros(), outputs);
                        outputs.set_cv7(Cv::Cv2, vel);
                    }
                }
            },
            MidiMessage::NoteOff(ch, note, _vel) => {
                if ch == self.settings.midi_channel {
                    if self.voice.note_off(note, outputs, settings) {
                        self.trigger.trigger(settings.trigger_length.to_micros(), outputs);
                    }
                }
            },
            MidiMessage::ControlChange(ch, cc, val) => {
                if ch == self.settings.midi_channel {
                    if cc == MOD_WHEEL_CC {
                        outputs.set_cv7(Cv::Cv3, val);
                    } else if cc == self.settings.midi_cc {
                        outputs.set_cv7(Cv::Cv4, val);
                    }
                }
            },
        }
    }

    /// Learn from incoming traffic: any note-on picks its channel as the
    /// listening channel; a controller message on that channel (other than
    /// the mod wheel) picks the auxiliary controller and blinks the learn
    /// gate for a tenth of a second.
    pub fn handle_midi_learn(&mut self, msg: MidiMessage, outputs: &mut Outputs)
        requires
            old(outputs).wf(),
        ensures
            final(outputs).wf(),
            final(self).voice == old(self).voice,
            final(self).trigger == old(self).trigger,
            final(outputs).dac == old(outputs).dac,
            ({
                let m = *old(self);
                let o = *old(outputs);
                match msg {
                    MidiMessage::NoteOn(ch, _note, _vel) => {
                        &&& final(self).settings == (MonoSettings {
                            midi_channel: ch,
                            ..m.settings
                        })
                        &&& final(self).learn_visualizer == m.learn_visualizer
                        &&& *final(outputs) == o
                    },
                    MidiMessage::ControlChange(ch, cc, _val) => if ch == m.settings.midi_channel
                        && cc != MOD_WHEEL_CC {
                        &&& final(self).settings == (MonoSettings { midi_cc: cc, ..m.settings })
                        &&& final(self).learn_visualizer == (Trigger {
                            gate: m.learn_visualizer.gate,
                            time: 0,
                            length: 100000,
                            is_active: true,
                        })
                        &&& final(outputs).gates@ == o.gates@.update(
                            m.learn_visualizer.gate.spec_index(),
                            true,
                        )
                    } else {
                        *final(self) == m && *final(outputs) == o
                    },
                    _ => *final(self) == m && *final(outputs) == o,
                }
            }),
    {
        match msg {
            MidiMessage::NoteOn(ch, _note, _vel) => {
                self.settings.midi_channel = ch;
            },
            MidiMessage::ControlChange(ch, cc, _val) => {
                if ch == self.settings.midi_channel && cc != MOD_WHEEL_CC {
                    self.settings.midi_cc = cc;
                    self.learn_visualizer.trigger(100000, outputs);
                }
            },
            _ => (),
        }
    }

    /// Advance both pulse generators by `delta_us` microseconds of elapsed
    /// time; a pulse past its length deasserts its gate.
    pub fn update(&mut self, delta_us: u32, outputs: &mut Outputs)
        requires
            old(outputs).wf(),
        ensures
            final(outputs).wf(),
            final(self).settings == old(self).settings,
            final(self).voice == old(self).voice,
            final(self).trigger == old(self).trigger.spec_step(delta_us),
            final(self).learn_visualizer == old(self).learn_visualizer.spec_step(delta_us),
            final(outputs).dac == old(outputs).dac,
            final(outputs).gates@ == ({
                let gates1 = if old(self).trigger.spec_expires(delta_us) {
                    old(outputs).gates@.update(old(self).trigger.gate.spec_index(), false)
                } else {
                    old(outputs).gates@
                };
                if old(self).learn_visualizer.spec_expires(delta_us) {
                    gates1.update(old(self).learn_visualizer.gate.spec_index(), false)
                } else {
                    gates1
                }
            }),
    {
        self.trigger.update(delta_us, outputs);
        self.learn_visualizer.update(delta_us, outputs);
    }
}

} // verus!
