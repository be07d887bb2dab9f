//! Output state: gates, control voltages and the DAC calibration engine.
//!
//! This module models the module's outputs as plain state. A gate is a
//! boolean intent (`true` = asserted); a CV output is the 12-bit DAC code
//! most recently computed for its channel. The hardware transport (SPI
//! frames, pin levels, active-low wiring) lives outside the crate and
//! simply copies this state out after each step.
//!
//! Voltages are fixed-point values with 16 fractional bits ("volt
//! equivalents", one calibration breakpoint per integer volt). The
//! calibration engine maps a voltage to a hardware code by linear
//! interpolation between the two bracketing breakpoints of the channel's
//! table.

use vstd::prelude::*;

verus! {

/// One of the six gate outputs.
#[derive(Clone, Copy, PartialEq, Eq, Debug)]
pub enum Gate {
    G1,
    G2,
    G3,
    G4,
    G5,
    G6,
}

impl Gate {
    pub open spec fn spec_index(self) -> int {
        match self {
            Gate::G1 => 0,
            Gate::G2 => 1,
            Gate::G3 => 2,
            Gate::G4 => 3,
            Gate::G5 => 4,
            Gate::G6 => 5,
        }
    }

    /// Position of this gate in the output array.
    pub fn index(self) -> (i: usize)
        ensures
            i == self.spec_index(),
    {
        match self {
            Gate::G1 => 0,
            Gate::G2 => 1,
            Gate::G3 => 2,
            Gate::G4 => 3,
            Gate::G5 => 4,
            Gate::G6 => 5,
        }
    }
}

/// One of the four control-voltage outputs.
#[derive(Clone, Copy, PartialEq, Eq, Debug)]
pub enum Cv {
    Cv1,
    Cv2,
    Cv3,
    Cv4,
}

impl Cv {
    pub open spec fn spec_channel(self) -> DacChannel {
        match self {
            Cv::Cv1 => DacChannel::C0,
            Cv::Cv2 => DacChannel::C1,
            Cv::Cv3 => DacChannel::C2,
            Cv::Cv4 => DacChannel::C3,
        }
    }

    /// The DAC channel that drives this CV output.
    pub fn dac_channel(self) -> (c: DacChannel)
        ensures
            c == self.spec_channel(),
    {
        match self {
            Cv::Cv1 => DacChannel::C0,
            Cv::Cv2 => DacChannel::C1,
            Cv::Cv3 => DacChannel::C2,
            Cv::Cv4 => DacChannel::C3,
        }
    }
}

/// One of the four DAC channels (two channels on each of two chips).
#[derive(Clone, Copy, PartialEq, Eq, Debug)]
pub enum DacChannel {
    C0,
    C1,
    C2,
    C3,
}

impl DacChannel {
    pub open spec fn spec_index(self) -> int {
        match self {
            DacChannel::C0 => 0,
            DacChannel::C1 => 1,
            DacChannel::C2 => 2,
            DacChannel::C3 => 3,
        }
    }

    pub fn index(self) -> (i: usize)
        ensures
            i == self.spec_index(),
    {
        match self {
            DacChannel::C0 => 0,
            DacChannel::C1 => 1,
            DacChannel::C2 => 2,
            DacChannel::C3 => 3,
        }
    }
}

/// The note-CV voltage for a MIDI note, in volt equivalents with 16
/// fractional bits: one volt per octave above the root note 24 (C1), notes
/// below the root clamped to zero.
pub open spec fn note_voltage_bits(note: u8) -> int {
    let semis = if note <= 24 { 0int } else { note - 24 };
    (semis * 65536) / 12
}

/// The voltage for a 7-bit controller value, rescaled across the whole
/// 8-volt range, in volt equivalents with 16 fractional bits.
pub open spec fn cv7_voltage_bits(value: u8) -> int {
    ((value * 65536) / 127) * 8
}

/// Linear interpolation between the codes `x0` and `x1` by the fraction
/// `frac / 65536`, rounded toward `x0`.
pub open spec fn interp_code(x0: u16, x1: u16, frac: int) -> int {
    if x1 >= x0 {
        x0 + (frac * (x1 - x0)) / 65536
    } else {
        x0 - (frac * (x0 - x1) + 65535) / 65536
    }
}

/// The hardware code for a voltage under a 9-breakpoint calibration table:
/// interpolated between the bracketing breakpoints, clamped to the final
/// breakpoint's code from the last breakpoint on.
pub open spec fn voltage_code(cal: Seq<u16>, bits: int) -> int
    recommends
        cal.len() == 9,
        0 <= bits,
{
    let index = bits / 65536;
    if index >= 8 {
        cal[8] as int
    } else {
        interp_code(cal[index], cal[index + 1], bits % 65536)
    }
}

/// The pair of DAC chips and their per-channel calibration tables.
///
/// `codes` holds the code most recently written to each channel; the SPI
/// transport that carries a code to the chips lives outside the crate.
pub struct Dac {
    /// Per channel, 9 breakpoint codes for integer voltages 0 through 8.
    pub calibration: Vec<Vec<u16>>,
    /// The last code computed for each channel.
    pub codes: Vec<u16>,
}

/// The default calibration table of one channel: an evenly spaced
/// progression, 500 code units per volt.
fn default_calibration_row() -> (row: Vec<u16>)
    ensures
        row@.len() == 9,
        forall|i: int| 0 <= i < 9 ==> row@[i] == 500 * i,
{
    let mut row: Vec<u16> = Vec::new();
    let mut k: u16 = 0;
    while k < 9
        invariant
            k <= 9,
            row@.len() == k,
            forall|i: int| 0 <= i < k ==> row@[i] == 500 * i,
        decreases 9 - k,
    {
        row.push(500 * k);
        k = k + 1;
    }
    row
}

impl Dac {
    /// Four channels, each with a full 9-breakpoint table.
    pub open spec fn wf(self) -> bool {
        &&& self.calibration@.len() == 4
        &&& forall|ch: int| 0 <= ch < 4 ==> (#[trigger] self.calibration@[ch])@.len() == 9
        &&& self.codes@.len() == 4
    }

    /// A DAC with the default (evenly spaced) calibration on every channel
    /// and all codes at zero.
    pub fn new() -> (d: Dac)
        ensures
            d.wf(),
            forall|ch: int, i: int|
                0 <= ch < 4 && 0 <= i < 9 ==> #[trigger] d.calibration@[ch]@[i] == 500 * i,
            forall|ch: int| 0 <= ch < 4 ==> d.codes@[ch] == 0,
    {
        let mut calibration: Vec<Vec<u16>> = Vec::new();
        let mut codes: Vec<u16> = Vec::new();
        let mut k: usize = 0;
        while k < 4
            invariant
                k <= 4,
                calibration@.len() == k,
                codes@.len() == k,
                forall|ch: int, i: int|
                    0 <= ch < k && 0 <= i < 9 ==> #[trigger] calibration@[ch]@[i] == 500 * i,
                forall|ch: int| 0 <= ch < k ==> (#[trigger] calibration@[ch])@.len() == 9,
                forall|ch: int| 0 <= ch < k ==> codes@[ch] == 0,
            decreases 4 - k,
        {
            calibration.push(default_calibration_row());
            codes.push(0);
            k = k + 1;
        }
        Dac { calibration, codes }
    }

    /// Record `value` as the current code of `channel`.
    pub fn set(&mut self, value: u16, channel: DacChannel)
        requires
            old(self).wf(),
        ensures
            final(self).wf(),
            final(self).codes@ == old(self).codes@.update(channel.spec_index(), value),
            final(self).calibration == old(self).calibration,
    {
        let ch = channel.index();
        self.codes[ch] = value;
    }

    /// Map a voltage (in volt equivalents, 16 fractional bits) through the
    /// channel's calibration table and record the resulting code.
    ///
    /// A voltage exactly on a breakpoint yields that breakpoint's code
    /// unmodified; from the final breakpoint on the code clamps to the
    /// final breakpoint's code instead of extrapolating.
    pub fn set_voltage(&mut self, value_bits: u32, channel: DacChannel)
        requires
            old(self).wf(),
        ensures
            final(self).wf(),
            final(self).codes@ == old(self).codes@.update(
                channel.spec_index(),
                voltage_code(old(self).calibration@[channel.spec_index()]@, value_bits as int) as u16,
            ),
            final(self).calibration == old(self).calibration,
    {
        let ch = channel.index();
        let index = (value_bits / 65536) as usize;
        if index >= 8 {
            let code = self.calibration[ch][8];
            self.set(code, channel);
            return;
        }
        let frac = value_bits % 65536;
        let x0 = self.calibration[ch][index];
        let x1 = self.calibration[ch][index + 1];
        let code: u16 = if x1 >= x0 {
            let d = (x1 - x0) as u32;
            assert((frac * d) / 65536 <= d) by (nonlinear_arith)
                requires
                    0 <= frac < 65536,
                    0 <= d,
            ;
            x0 + ((frac * d) / 65536) as u16
        } else {
            let d = (x0 - x1) as u32;
            assert((frac * d + 65535) / 65536 <= d) by (nonlinear_arith)
                requires
                    0 <= frac < 65536,
                    0 <= d <= 65535,
            ;
            x0 - ((frac * d + 65535) / 65536) as u16
        };
        self.set(code, channel);
    }

    /// A voltage exactly on a breakpoint maps to that breakpoint's code,
    /// and any voltage at or past the final breakpoint clamps to the final
    /// code.
    pub proof fn lemma_breakpoint_exact(cal: Seq<u16>, level: int)
        requires
            cal.len() == 9,
            0 <= level <= 8,
        ensures
            voltage_code(cal, level * 65536) == cal[level],
            forall|bits: int| bits >= 8 * 65536 ==> voltage_code(cal, bits) == cal[8],
    {
        assert forall|bits: int| bits >= 8 * 65536 implies voltage_code(cal, bits) == cal[8] by {
            assert(bits / 65536 >= 8) by (nonlinear_arith)
                requires
                    bits >= 8 * 65536,
            ;
        }
        if level < 8 {
            assert((level * 65536) / 65536 == level && (level * 65536) % 65536 == 0)
                by (nonlinear_arith)
                requires
                    0 <= level <= 8,
            ;
        }
    }
}

/// All output state of the module: six gates and the DAC with its four CV
/// channels.
pub struct Outputs {
    /// `true` = asserted. The active-low wiring is applied at the hardware
    /// boundary, outside the crate.
    pub gates: Vec<bool>,
    pub dac: Dac,
}

impl Outputs {
    pub open spec fn wf(self) -> bool {
        &&& self.gates@.len() == 6
        &&& self.dac.wf()
    }

    /// All gates deasserted, DAC at its defaults.
    pub fn new() -> (o: Outputs)
        ensures
            o.wf(),
            forall|g: int| 0 <= g < 6 ==> o.gates@[g] == false,
            forall|ch: int, i: int|
                0 <= ch < 4 && 0 <= i < 9 ==> #[trigger] o.dac.calibration@[ch]@[i] == 500 * i,
            forall|ch: int| 0 <= ch < 4 ==> o.dac.codes@[ch] == 0,
    {
        let mut gates: Vec<bool> = Vec::new();
        let mut k: usize = 0;
        while k < 6
            invariant
                k <= 6,
                gates@.len() == k,
                forall|g: int| 0 <= g < k ==> gates@[g] == false,
            decreases 6 - k,
        {
            gates.push(false);
            k = k + 1;
        }
        Outputs { gates, dac: Dac::new() }
    }

    /// Set the pitch CV of `channel` for a MIDI note: one volt per octave
    /// above the root note 24 (C1).
    pub fn set_cv_note(&mut self, channel: Cv, note: u8)
        requires
            old(self).wf(),
        ensures
            final(self).wf(),
            final(self).gates == old(self).gates,
            final(self).dac.calibration == old(self).dac.calibration,
            final(self).dac.codes@ == old(self).dac.codes@.update(
                channel.spec_channel().spec_index(),
                voltage_code(
                    old(self).dac.calibration@[channel.spec_channel().spec_index()]@,
                    note_voltage_bits(note),
                ) as u16,
            ),
    {
        let semis = if note <= 24 {
            0u32
        } else {
            (note - 24) as u32
        };
        let bits = (semis * 65536) / 12;
        self.dac.set_voltage(bits, channel.dac_channel());
    }

    /// Set the CV of `channel` for a 7-bit MIDI controller value, rescaled
    /// across the whole 8-volt range.
    pub fn set_cv7(&mut self, channel: Cv, value: u8)
        requires
            old(self).wf(),
        ensures
            final(self).wf(),
            final(self).gates == old(self).gates,
            final(self).dac.calibration == old(self).dac.calibration,
            final(self).dac.codes@ == old(self).dac.codes@.update(
                channel.spec_channel().spec_index(),
                voltage_code(
                    old(self).dac.calibration@[channel.spec_channel().spec_index()]@,
                    cv7_voltage_bits(value),
                ) as u16,
            ),
    {
        let bits = (((value as u32) * 65536) / 127) * 8;
        self.dac.set_voltage(bits, channel.dac_channel());
    }

    /// Assert or deassert one gate output.
    pub fn set_gate(&mut self, gate: Gate, value: bool)
        requires
            old(self).wf(),
        ensures
            final(self).wf(),
            final(self).gates@ == old(self).gates@.update(gate.spec_index(), value),
            final(self).dac == old(self).dac,
    {
        let g = gate.index();
        self.gates[g] = value;
    }
}

} // verus!
