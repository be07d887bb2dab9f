//! Performance settings consumed per event by the voice engine.

use vstd::prelude::*;

verus! {

/// Read-only configuration snapshot for the voice engine.
#[derive(Clone, Copy, Debug)]
pub struct Settings {
    pub voicing: Voicing,
    pub note_priority: NotePriority,
    pub legato: bool,
    pub trigger_length: TriggerLength,
    pub trigger_scaling: bool,
    pub trigger_shape: TriggerShape,
    pub tuning: Tuning,
}

impl Default for Settings {
    /// The power-on configuration: latest-note priority, legato off,
    /// 5 ms square triggers, equal temperament.
    fn default() -> (s: Settings)
        ensures
            s.voicing is Poly,
            s.note_priority is Latest,
            !s.legato,
            s.trigger_length is T5ms,
            !s.trigger_scaling,
            s.trigger_shape is Square,
            s.tuning is EqualTemperament,
    {
        Settings {
            voicing: Voicing::Poly,
            note_priority: NotePriority::Latest,
            legato: false,
            trigger_length: TriggerLength::T5ms,
            trigger_scaling: false,
            trigger_shape: TriggerShape::Square,
            tuning: Tuning::EqualTemperament,
        }
    }
}

#[derive(Clone, Copy, Debug)]
pub enum Voicing {
    Poly,
    Cyclic,
    Random,
    Velocity,
}

/// Which held note sounds when several are held at once.
#[derive(Clone, Copy, Debug)]
pub enum NotePriority {
    Latest,
    First,
    Highest,
    Lowest,
}

#[derive(Clone, Copy, Debug)]
pub enum TriggerLength {
    T50us,
    T500us,
    T1ms,
    T5ms,
    T25ms,
}

impl TriggerLength {
    /// The configured pulse length in microseconds.
    pub fn to_micros(self) -> (us: u32)
        ensures
            us == self.spec_micros(),
    {
        match self {
            TriggerLength::T50us => 50,
            TriggerLength::T500us => 500,
            TriggerLength::T1ms => 1000,
            TriggerLength::T5ms => 5000,
            TriggerLength::T25ms => 25000,
        }
    }

    pub open spec fn spec_micros(self) -> u32 {
        match self {
            TriggerLength::T50us => 50,
            TriggerLength::T500us => 500,
            TriggerLength::T1ms => 1000,
            TriggerLength::T5ms => 5000,
            TriggerLength::T25ms => 25000,
        }
    }
}

#[derive(Clone, Copy, Debug)]
pub enum TriggerShape {
    Square,
}

#[derive(Clone, Copy, Debug)]
pub enum Tuning {
    EqualTemperament,
}

} // verus!
