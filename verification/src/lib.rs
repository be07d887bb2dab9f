//! Control core of a monophonic MIDI-to-CV/Gate synthesizer voice module.
//!
//! The crate holds the real-time decision logic: button debouncing and
//! long-press detection, the menu state machine over the shared UI context,
//! MIDI-driven note allocation with a configurable priority policy, timed
//! trigger pulses, piecewise-linear DAC calibration, and the brightness and
//! breathing curves for the status display. Hardware access (pins, SPI, PWM,
//! the MIDI byte stream) stays outside; every function here computes over
//! plain values.

mod button;
mod context;
mod display;
mod modes;
mod outputs;
mod panel;
mod settings;
mod trigger;
mod voice;

pub use button::Button;
pub use button::Event;
pub use button::do_calibrate;
pub use context::Context;
pub use context::Menu;
pub use context::N_CAL_CHANNELS;
pub use context::N_CAL_LEVELS;
pub use context::N_MODES;
pub use context::N_SETTINGS;
pub use display::BinaryDisplay;
pub use display::N_BITS;
pub use display::correct_brightness;
pub use modes::MidiMessage;
pub use modes::Mono;
pub use modes::MonoSettings;
pub use modes::MOD_WHEEL_CC;
pub use outputs::Cv;
pub use outputs::Dac;
pub use outputs::DacChannel;
pub use outputs::Gate;
pub use outputs::Outputs;
pub use panel::MidiRoute;
pub use panel::apply_menu_breathing;
pub use panel::menu_display_value;
pub use panel::midi_route;
pub use settings::NotePriority;
pub use settings::Settings;
pub use settings::TriggerLength;
pub use settings::TriggerShape;
pub use settings::Tuning;
pub use settings::Voicing;
pub use trigger::Trigger;
pub use voice::VOICE_CAPACITY;
pub use voice::Voice;
