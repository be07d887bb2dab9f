//! Status display: per-bit brightness levels, perceptual correction and the
//! breathing animation.
//!
//! Each of the five status bits drives one LED. A bit picks an "off" or
//! "on" base level; when breathing is enabled a periodic offset is added,
//! synchronized across the lit bits. Every computed level passes through a
//! fixed monotone correction curve before it reaches the PWM driver: an
//! exponential term `(e^(5x) - 1) / (e^5 - 1)` over the normalized input,
//! plus a small additive term `(1 - x) * (1 - 1 / (1 + 15 x)) / 100` that
//! lifts the low end where the exponential alone under-drives the LED.
//!
//! All arithmetic is binary fixed point, mirrored here bit-exactly on
//! plain integers: the breathing phase and the sine run with 12 fractional
//! bits, the correction curve with 14. The transcendental kernels come
//! from the `cordic` crate through the two trusted wrappers below.

use vstd::prelude::*;

verus! {

/// Number of status bits (LEDs) on the display.
pub const N_BITS: usize = 5;

/// The value `cordic::sin` returns for an angle given as a fixed-point
/// number with 12 fractional bits, as raw bits. A function of the angle
/// bits alone.
pub uninterp spec fn cordic_sin_q12(angle_bits: int) -> int;

/// The value `cordic::exp` returns for an argument given as a fixed-point
/// number with 14 fractional bits, as raw bits. A function of the argument
/// bits alone.
pub uninterp spec fn cordic_exp_q14(x_bits: int) -> int;

/// Relies on cordic::sin over 12-fractional-bit fixed point: the result
/// depends on the angle bits alone. The admitted angle range (zero to a
/// full turn) keeps the crate's internal quadrant reduction and iteration
/// arithmetic far from any overflow.
#[verifier::external_body]
fn sin_q12(angle_bits: i32) -> (r: i32)
    requires
        0 <= angle_bits <= 26000,
    ensures
        r as int == cordic_sin_q12(angle_bits as int),
{
    cordic::sin(fixed::types::I20F12::from_bits(angle_bits)).to_bits()
}

/// Relies on cordic::exp over 14-fractional-bit fixed point: the result
/// depends on the argument bits alone. For a non-negative argument the
/// crate's running product starts at one and every factor is at least
/// one, so the result is at least one; an argument of at least one
/// multiplies by e at least once, so the result is then at least two; an
/// argument of zero leaves every factor and the product at exactly one.
#[verifier::external_body]
fn exp_q14(x_bits: i32) -> (r: i32)
    requires
        0 <= x_bits <= 81920,
    ensures
        r as int == cordic_exp_q14(x_bits as int),
        r >= 16384,
        x_bits >= 16384 ==> r >= 32768,
        x_bits == 0 ==> r == 16384,
{
    cordic::exp(fixed::types::I18F14::from_bits(x_bits)).to_bits()
}

/// The breathing period in milliseconds for a frequency in millihertz.
pub open spec fn spec_period_ms(frequency_mhz: u32) -> int
    recommends
        1 <= frequency_mhz <= 1_000_000,
{
    1_000_000int / (frequency_mhz as int)
}

/// The additive breathing offset at phase `time` of a period, with 12
/// fractional bits of phase resolution: the unit sine of the phase angle,
/// shifted to `[0, 1]` and scaled by the amplitude. The sine value is
/// clamped to the unit range before use, which guards the conversion back
/// to an integer level.
pub open spec fn spec_breathing_offset(time: int, period: int, amplitude: u16) -> int
    recommends
        1 <= period,
        0 <= time < period,
{
    let x = (time * 4096) / period;
    let angle = ((x * 12867) / 4096) * 2;
    let s0 = cordic_sin_q12(angle);
    let s = if s0 < -4096 {
        -4096int
    } else if s0 > 4096 {
        4096int
    } else {
        s0
    };
    let y = (s + 4096) / 2;
    (y * amplitude) / 4096
}

/// The perceptually corrected output level for a raw level, with 14
/// fractional bits: the exponential curve `(e^(5x) - 1) / (e^5 - 1)` plus
/// the low-end boost `(1 - x) * (1 - 1 / (1 + 15 x)) / 100`, rescaled to
/// the 16-bit output range and clamped into it.
pub open spec fn spec_correct_brightness(value: u16) -> int {
    let x = (value * 16384) / 65535;
    let e1 = cordic_exp_q14(5 * x);
    let e5 = cordic_exp_q14(81920);
    let y0 = ((e1 - 16384) * 16384) / (e5 - 16384);
    let inv = (16384int * 16384) / (16384 + 15 * x);
    let boost = (((16384 - x) * (16384 - inv)) / 16384) / 100;
    let out = ((y0 + boost) * 65535) / 16384;
    if out < 0 {
        0int
    } else if out > 65535 {
        65535int
    } else {
        out
    }
}

/// Compute the corrected PWM level for a raw brightness level. The curve
/// pins both ends of the range: a dark input stays dark and a full-scale
/// input stays at full scale.
pub fn correct_brightness(value: u16) -> (r: u16)
    ensures
        r as int == spec_correct_brightness(value),
        value == 0 ==> r == 0,
        value == 65535 ==> r == 65535,
{
    let x: u64 = ((value as u64) * 16384) / 65535;
    assert(x <= 16384) by (nonlinear_arith)
        requires
            x == (value as int) * 16384 / 65535,
            value <= 65535,
    ;
    let e1 = exp_q14((5 * x) as i32) as u64;
    let e5 = exp_q14(81920) as u64;
    let y0: u64 = ((e1 - 16384) * 16384) / (e5 - 16384);
    let inv: u64 = (16384 * 16384) / (16384 + 15 * x);
    assert(inv <= 16384) by (nonlinear_arith)
        requires
            inv == (16384int * 16384) / (16384 + 15 * (x as int)),
            x >= 0,
    ;
    assert((16384 - x) * (16384 - inv) <= 16384 * 16384) by (nonlinear_arith)
        requires
            0 <= x <= 16384,
            0 <= inv <= 16384,
    ;
    let boost: u64 = (((16384 - x) * (16384 - inv)) / 16384) / 100;
    let out: u64 = ((y0 + boost) * 65535) / 16384;
    proof {
        if value == 0 {
            assert(x == 0);
            assert(e1 == 16384);
            vstd::arithmetic::div_mod::lemma_div_multiples_vanish(0, e5 as int - 16384);
            assert(y0 == 0);
            assert(inv == 16384);
            assert(boost == 0);
            assert(out == 0);
        }
        if value == 65535 {
            vstd::arithmetic::div_mod::lemma_div_multiples_vanish(16384, 65535);
            assert(x == 16384);
            vstd::arithmetic::div_mod::lemma_div_multiples_vanish(16384, e1 as int - 16384);
            assert(y0 == 16384);
            vstd::arithmetic::div_mod::lemma_div_multiples_vanish(65535, 16384);
            assert(out == 65535);
        }
    }
    if out > 65535 {
        65535
    } else {
        out as u16
    }
}

/// The five status LEDs: bit state, base levels, breathing state and the
/// computed PWM level of each LED.
pub struct BinaryDisplay {
    /// The displayed bit pattern; bit `i` drives LED `i`.
    pub value: u8,
    /// Base level of an unlit LED.
    pub off_level: u16,
    /// Base level of a lit LED.
    pub on_level: u16,
    /// Breathing animation enabled.
    pub is_breathing: bool,
    /// Peak of the additive breathing offset.
    pub breathing_amplitude: u16,
    /// Breathing frequency in millihertz.
    pub frequency_mhz: u32,
    /// Accumulated time: the breathing phase in milliseconds while
    /// breathing, free-running for the test pattern.
    pub time: u32,
    /// The corrected PWM level last computed for each LED; the PWM driver
    /// outside the crate copies these out.
    pub levels: Vec<u16>,
}

impl BinaryDisplay {
    /// Levels for all five LEDs exist and, while breathing, the frequency
    /// yields a nonzero period and base level plus amplitude stays inside
    /// the 16-bit range.
    pub open spec fn wf(self) -> bool {
        &&& self.levels@.len() == N_BITS
        &&& self.is_breathing ==> {
            &&& 1 <= self.frequency_mhz <= 1_000_000
            &&& self.on_level + self.breathing_amplitude <= 65535
            &&& self.off_level + self.breathing_amplitude <= 65535
        }
    }

    /// A blank display: no bits lit, full on-level, breathing disabled.
    pub fn new() -> (d: BinaryDisplay)
        ensures
            d.wf(),
            d.value == 0,
            d.off_level == 0,
            d.on_level == 65535,
            !d.is_breathing,
            d.breathing_amplitude == 0,
            d.frequency_mhz == 1000,
            d.time == 0,
            forall|i: int| 0 <= i < N_BITS ==> d.levels@[i] == 0,
    {
        let mut levels: Vec<u16> = Vec::new();
        let mut k: usize = 0;
        while k < N_BITS
            invariant
                k <= N_BITS,
                levels@.len() == k,
                forall|i: int| 0 <= i < k ==> levels@[i] == 0,
            decreases N_BITS - k,
        {
            levels.push(0);
            k = k + 1;
        }
        BinaryDisplay {
            value: 0,
            off_level: 0,
            on_level: 65535,
            is_breathing: false,
            breathing_amplitude: 0,
            frequency_mhz: 1000,
            time: 0,
            levels,
        }
    }

    /// Show the bit pattern `n`.
    pub fn set(&mut self, n: u8)
        ensures
            *final(self) == (BinaryDisplay { value: n, ..*old(self) }),
    {
        self.value = n;
    }

    /// Light bit `n`.
    pub fn set_bit(&mut self, n: u8)
        requires
            n < 8,
        ensures
            *final(self) == (BinaryDisplay { value: old(self).value | (1u8 << n), ..*old(self) }),
    {
        self.value = self.value | (1u8 << n);
    }

    /// Extinguish bit `n`.
    pub fn clear_bit(&mut self, n: u8)
        requires
            n < 8,
        ensures
            *final(self) == (BinaryDisplay { value: old(self).value & !(1u8 << n), ..*old(self) }),
    {
        self.value = self.value & !(1u8 << n);
    }

    /// The base level of LED `i` for the current bit pattern.
    pub open spec fn spec_base_level(self, i: int) -> u16
        recommends
            0 <= i < N_BITS,
    {
        if (self.value >> (i as u8)) & 1 == 0 {
            self.off_level
        } else {
            self.on_level
        }
    }

    /// The breathing phase after `delta_ms` more milliseconds: advanced
    /// modulo the period while breathing, untouched otherwise.
    pub open spec fn spec_time_after(self, delta_ms: u32) -> int {
        if self.is_breathing {
            (self.time + delta_ms) % spec_period_ms(self.frequency_mhz)
        } else {
            self.time as int
        }
    }

    /// The breathing offset applied on an update `delta_ms` after `self`:
    /// zero while breathing is off.
    pub open spec fn spec_offset_after(self, delta_ms: u32) -> int {
        if self.is_breathing {
            spec_breathing_offset(
                self.spec_time_after(delta_ms),
                spec_period_ms(self.frequency_mhz),
                self.breathing_amplitude,
            )
        } else {
            0
        }
    }

    /// Advance the animation by `delta_ms` milliseconds and recompute every
    /// LED level: base level per bit, plus the breathing offset, through
    /// the correction curve. The breathing phase accumulates modulo the
    /// period.
    pub fn update(&mut self, delta_ms: u32)
        requires
            old(self).wf(),
        ensures
            final(self).wf(),
            final(self).time == old(self).spec_time_after(delta_ms),
            final(self).levels@.len() == N_BITS,
            forall|i: int|
                0 <= i < N_BITS ==> final(self).levels@[i] == spec_correct_brightness(
                    (old(self).spec_base_level(i) + old(self).spec_offset_after(delta_ms)) as u16,
                ),
            *final(self) == (BinaryDisplay {
                time: final(self).time,
                levels: final(self).levels,
                ..*old(self)
            }),
    {
        let ghost pre = *self;
        let mut breathing_offset: u16 = 0;
        if self.is_breathing {
            let period: u32 = 1_000_000 / self.frequency_mhz;
            assert(period >= 1) by (nonlinear_arith)
                requires
                    period == 1_000_000int / (self.frequency_mhz as int),
                    1 <= self.frequency_mhz <= 1_000_000,
            ;
            let t2: u32 = (((self.time as u64) + (delta_ms as u64)) % (period as u64)) as u32;
            self.time = t2;
            let x: u64 = ((t2 as u64) * 4096) / (period as u64);
            assert(x < 4096) by (nonlinear_arith)
                requires
                    x == (t2 as int) * 4096 / (period as int),
                    0 <= t2 < period,
            ;
            let angle: u64 = ((x * 12867) / 4096) * 2;
            assert(angle <= 25734) by (nonlinear_arith)
                requires
                    angle == ((x as int) * 12867 / 4096) * 2,
                    0 <= x < 4096,
            ;
            let s0: i32 = sin_q12(angle as i32);
            let s: i32 = if s0 < -4096 {
                -4096
            } else if s0 > 4096 {
                4096
            } else {
                s0
            };
            let y: u32 = ((s + 4096) as u32) / 2;
            assert((y as u64) * (self.breathing_amplitude as u64) <= 4096 * 65535)
                by (nonlinear_arith)
                requires
                    0 <= y <= 4096,
                    self.breathing_amplitude <= 65535,
            ;
            let off: u64 = ((y as u64) * (self.breathing_amplitude as u64)) / 4096;
            assert(off <= self.breathing_amplitude) by (nonlinear_arith)
                requires
                    off == (y as int) * (self.breathing_amplitude as int) / 4096,
                    0 <= y <= 4096,
            ;
            breathing_offset = off as u16;
        }

        let mut i: usize = 0;
        while i < N_BITS
            invariant
                i <= N_BITS,
                self.levels@.len() == N_BITS,
                *self == (BinaryDisplay { time: self.time, levels: self.levels, ..pre }),
                pre.wf(),
                self.time == pre.spec_time_after(delta_ms),
                breathing_offset == pre.spec_offset_after(delta_ms),
                pre.is_breathing ==> breathing_offset <= pre.breathing_amplitude,
                !pre.is_breathing ==> breathing_offset == 0,
                forall|j: int|
                    0 <= j < i ==> self.levels@[j] == spec_correct_brightness(
                        (pre.spec_base_level(j) + pre.spec_offset_after(delta_ms)) as u16,
                    ),
            decreases N_BITS - i,
        {
            let bit = (self.value >> (i as u8)) & 1;
            let base = if bit == 0 {
                self.off_level
            } else {
                self.on_level
            };
            let level = correct_brightness(base + breathing_offset);
            self.levels[i] = level;
            i = i + 1;
        }
    }

    /// Sweep all LEDs together through the full brightness range over a
    /// two-second cycle, through the correction curve: a service pattern
    /// for judging the curve on the real hardware.
    pub fn brightness_test(&mut self, delta_ms: u32)
        requires
            old(self).wf(),
        ensures
            final(self).wf(),
            final(self).time == (old(self).time + delta_ms) % 0x1_0000_0000,
            final(self).levels@.len() == N_BITS,
            forall|i: int|
                0 <= i < N_BITS ==> final(self).levels@[i] == spec_correct_brightness(
                    (((final(self).time % 2000) * 65535) / 2000) as u16,
                ),
            *final(self) == (BinaryDisplay {
                time: final(self).time,
                levels: final(self).levels,
                ..*old(self)
            }),
    {
        let ghost pre = *self;
        self.time = self.time.wrapping_add(delta_ms);
        let scaled: u32 = ((self.time % 2000) * 65535) / 2000;
        assert(scaled <= 65535) by (nonlinear_arith)
            requires
                scaled == ((self.time as int) % 2000) * 65535 / 2000,
                0 <= (self.time as int) % 2000 < 2000,
        ;
        let y: u16 = scaled as u16;
        let level = correct_brightness(y);
        let mut i: usize = 0;
        while i < N_BITS
            invariant
                i <= N_BITS,
                self.levels@.len() == N_BITS,
                *self == (BinaryDisplay { time: self.time, levels: self.levels, ..pre }),
                self.time == (pre.time + delta_ms) % 0x1_0000_0000,
                level == spec_correct_brightness((((self.time % 2000) * 65535) / 2000) as u16),
                forall|j: int| 0 <= j < i ==> self.levels@[j] == level,
            decreases N_BITS - i,
        {
            self.levels[i] = level;
            i = i + 1;
        }
    }

    /// Start the breathing animation: `frequency_mhz` millihertz, offset
    /// peak `amplitude`, and `margin` of glow kept on unlit LEDs. The
    /// on-level drops so that level plus offset never leaves the 16-bit
    /// range.
    pub fn enable_breathing(&mut self, frequency_mhz: u32, amplitude: u16, margin: u16)
        requires
            old(self).wf(),
            1 <= frequency_mhz <= 1_000_000,
            amplitude + margin <= 65535,
        ensures
            final(self).wf(),
            *final(self) == (BinaryDisplay {
                is_breathing: true,
                frequency_mhz: frequency_mhz,
                breathing_amplitude: amplitude,
                off_level: margin,
                on_level: (65535 - (amplitude + margin)) as u16,
                ..*old(self)
            }),
    {
        self.is_breathing = true;
        self.frequency_mhz = frequency_mhz;
        self.breathing_amplitude = amplitude;
        self.off_level = margin;
        self.on_level = 65535 - (amplitude + margin);
    }

    /// Stop the breathing animation and restore the full level range.
    pub fn disable_breathing(&mut self)
        requires
            old(self).wf(),
        ensures
            final(self).wf(),
            *final(self) == (BinaryDisplay {
                is_breathing: false,
                breathing_amplitude: 0,
                off_level: 0,
                on_level: 65535,
                ..*old(self)
            }),
    {
        self.is_breathing = false;
        self.breathing_amplitude = 0;
        self.off_level = 0;
        self.on_level = 65535;
    }

    /// The breathing offset is periodic in the accumulated time with the
    /// configured period: starting from any phase, advancing by exactly
    /// one period returns the phase — and with it the offset — to its
    /// starting value.
    pub proof fn lemma_breathing_periodic(t: int, period: int, amplitude: u16)
        requires
            1 <= period,
            0 <= t < period,
        ensures
            (t + period) % period == t,
            spec_breathing_offset((t + period) % period, period, amplitude)
                == spec_breathing_offset(t, period, amplitude),
    {
        vstd::arithmetic::div_mod::lemma_mod_add_multiples_vanish(t, period);
        vstd::arithmetic::div_mod::lemma_small_mod(t as nat, period as nat);
    }
}

} // verus!
