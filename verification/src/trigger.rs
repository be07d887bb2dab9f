//! Timed trigger pulses on a gate line.
//!
//! `trigger` arms the pulse and asserts its gate at once; `update` must be
//! called every control-loop iteration so that the pulse ends on time even
//! when no further event arrives.

use crate::outputs::Gate;
use crate::outputs::Outputs;
use vstd::prelude::*;

verus! {

/// One trigger pulse generator, bound to a gate output.
pub struct Trigger {
    /// Gate line carrying the pulse.
    pub gate: Gate,
    /// Microseconds elapsed since the pulse was armed.
    pub time: u32,
    /// Pulse length in microseconds.
    pub length: u32,
    /// The pulse is running.
    pub is_active: bool,
}

impl Trigger {
    /// A disarmed generator on the given gate line.
    pub open spec fn spec_idle(gate: Gate) -> Trigger {
        Trigger { gate, time: 0, length: 0, is_active: false }
    }

    pub fn new(gate: Gate) -> (t: Trigger)
        ensures
            t.gate == gate,
            t.time == 0,
            t.length == 0,
            !t.is_active,
    {
        Trigger { gate, time: 0, length: 0, is_active: false }
    }

    /// Arm a pulse of `length_us` microseconds and assert its gate line now.
    pub fn trigger(&mut self, length_us: u32, outputs: &mut Outputs)
        requires
            old(outputs).wf(),
        ensures
            final(outputs).wf(),
            *final(self) == (Trigger {
                gate: old(self).gate,
                time: 0,
                length: length_us,
                is_active: true,
            }),
            final(outputs).gates@ == old(outputs).gates@.update(old(self).gate.spec_index(), true),
            final(outputs).dac == old(outputs).dac,
    {
        self.time = 0;
        self.length = length_us;
        self.is_active = true;
        outputs.set_gate(self.gate, true);
    }

    /// The accumulated time after `delta_us` more microseconds, saturated
    /// at the counter's range.
    pub open spec fn spec_time_after(self, delta_us: u32) -> int {
        if self.time + delta_us <= u32::MAX {
            self.time + delta_us
        } else {
            u32::MAX as int
        }
    }

    /// The generator state after one update of `delta_us` microseconds.
    pub open spec fn spec_step(self, delta_us: u32) -> Trigger {
        if !self.is_active {
            self
        } else {
            Trigger {
                time: self.spec_time_after(delta_us) as u32,
                is_active: self.spec_time_after(delta_us) <= self.length,
                ..self
            }
        }
    }

    /// Whether this update ends the pulse (and deasserts its gate line).
    pub open spec fn spec_expires(self, delta_us: u32) -> bool {
        self.is_active && self.spec_time_after(delta_us) > self.length
    }

    /// Advance the pulse by `delta_us` microseconds of elapsed time. Once
    /// the accumulated time exceeds the pulse length the generator disarms
    /// and deasserts its gate, exactly once.
    pub fn update(&mut self, delta_us: u32, outputs: &mut Outputs)
        requires
            old(outputs).wf(),
        ensures
            final(outputs).wf(),
            *final(self) == old(self).spec_step(delta_us),
            final(outputs).gates@ == (if old(self).spec_expires(delta_us) {
                old(outputs).gates@.update(old(self).gate.spec_index(), false)
            } else {
                old(outputs).gates@
            }),
            final(outputs).dac == old(outputs).dac,
    {
        if self.is_active {
            self.time = self.time.saturating_add(delta_us);
            if self.time > self.length {
                self.is_active = false;
                outputs.set_gate(self.gate, false);
            }
        }
    }
}

} // verus!
