//! The waveform generators.
//!
//! A generator counts its phase in ticks: `sample_rate` ticks make one cycle,
//! so the phase `p` of the cycle is `phase / sample_rate`, and one sample
//! period moves the phase on by `frequency` ticks, wrapping at `sample_rate`.
//! Amplitudes and samples are whole numbers on one linear scale.

use crate::mixer::{advanced_by, exact, SampleProvider};
use vstd::arithmetic::div_mod::{
    lemma_add_mod_noop_right, lemma_div_is_ordered, lemma_div_multiples_vanish,
    lemma_fundamental_div_mod, lemma_mod_add_multiples_vanish, lemma_mod_bound,
    lemma_mod_multiples_vanish, lemma_small_mod,
};
use vstd::arithmetic::mul::{lemma_mul_inequality, lemma_mul_is_commutative};
use vstd::prelude::*;

verus! {

/// The phase one sample period after `phase`.
pub open spec fn next_phase(phase: int, frequency: int, sample_rate: int) -> int {
    (phase + frequency) % sample_rate
}

/// The phase `pulls` sample periods after `phase`.
pub open spec fn phase_after(phase: int, frequency: int, sample_rate: int, pulls: nat) -> int
    decreases pulls,
{
    if pulls == 0 {
        phase
    } else {
        next_phase(
            phase_after(phase, frequency, sample_rate, (pulls - 1) as nat),
            frequency,
            sample_rate,
        )
    }
}

/// The square wave: `amplitude` over the first half of the cycle, its
/// negative over the second half.
pub open spec fn square_shape(amplitude: int, phase: int, sample_rate: int) -> int {
    if 2 * phase < sample_rate {
        amplitude
    } else {
        -amplitude
    }
}

/// The triangle ramp times `sample_rate`: `4p - 1` over the first half of the
/// cycle, `3 - 4p` over the second half.
pub open spec fn triangle_slope(phase: int, sample_rate: int) -> int {
    if 2 * phase < sample_rate {
        4 * phase - sample_rate
    } else {
        3 * sample_rate - 4 * phase
    }
}

/// The absolute value of `x`.
pub open spec fn magnitude(x: int) -> int {
    if x < 0 {
        -x
    } else {
        x
    }
}

/// `amplitude * numerator / denominator`, rounded toward zero.
pub open spec fn scale_toward_zero(amplitude: int, numerator: int, denominator: int) -> int {
    let quotient = (magnitude(amplitude) * magnitude(numerator)) / denominator;
    if (amplitude < 0) == (numerator < 0) {
        quotient
    } else {
        -quotient
    }
}

/// The triangle wave: `amplitude * (4p - 1)` over the first half of the
/// cycle, `amplitude * (3 - 4p)` over the second half, rounded toward zero.
pub open spec fn triangle_shape(amplitude: int, phase: int, sample_rate: int) -> int {
    scale_toward_zero(amplitude, triangle_slope(phase, sample_rate), sample_rate)
}

/// Moves `phase` one sample period on and wraps it into the cycle.
pub fn advance_phase(phase: u32, frequency: u32, sample_rate: u32) -> (next: u32)
    requires
        sample_rate > 0,
    ensures
        next == next_phase(phase as int, frequency as int, sample_rate as int),
        next < sample_rate,
{
    let sum: u64 = phase as u64 + frequency as u64;
    (sum % (sample_rate as u64)) as u32
}

/// The square wave's sample at `phase`.
pub fn square_sample(amplitude: i32, phase: u32, sample_rate: u32) -> (sample: i64)
    ensures
        sample == square_shape(amplitude as int, phase as int, sample_rate as int),
        2 * phase < sample_rate ==> sample == amplitude,
        2 * phase >= sample_rate ==> sample == -amplitude,
{
    if 2 * (phase as u64) < sample_rate as u64 {
        amplitude as i64
    } else {
        -(amplitude as i64)
    }
}

/// The triangle wave's sample at `phase`.
pub fn triangle_sample(amplitude: i32, phase: u32, sample_rate: u32) -> (sample: i64)
    requires
        sample_rate > 0,
        phase < sample_rate,
    ensures
        sample == triangle_shape(amplitude as int, phase as int, sample_rate as int),
{
    let p: i64 = phase as i64;
    let rate: i64 = sample_rate as i64;
    let slope: i64 = if 2 * p < rate {
        4 * p - rate
    } else {
        3 * rate - 4 * p
    };
    let slope_size: u64 = if slope < 0 {
        (-slope) as u64
    } else {
        slope as u64
    };
    let wide: i64 = amplitude as i64;
    let size: u64 = if wide < 0 {
        (-wide) as u64
    } else {
        wide as u64
    };
    assert(size * slope_size <= 0x8000_0000 * 0xffff_ffff) by (nonlinear_arith)
        requires
            size <= 0x8000_0000,
            slope_size <= 0xffff_ffff,
    ;
    let product: u64 = size * slope_size;
    let quotient: u64 = product / (sample_rate as u64);
    assert(quotient <= product) by (nonlinear_arith)
        requires
            quotient == product / (sample_rate as u64),
            sample_rate > 0,
    ;
    if (amplitude < 0) == (slope < 0) {
        quotient as i64
    } else {
        -(quotient as i64)
    }
}

/// A sine voice. Its shape, `amplitude * sin(2 * pi * p)`, is no whole
/// number and not computed here: the voice carries the function `shape`,
/// which takes the amplitude, the phase and the sample rate and gives the
/// sample. All that is known of a sine sample is what `shape` promises.
pub struct SineWave<F: Fn(i32, u32, u32) -> i64> {
    pub frequency: u32,
    pub amplitude: i32,
    pub phase: u32,
    pub sample_rate: u32,
    pub shape: F,
}

/// A square voice with a duty cycle of one half.
#[derive(Debug)]
pub struct SquareWave {
    pub frequency: u32,
    pub amplitude: i32,
    pub phase: u32,
    pub sample_rate: u32,
}

/// A triangle voice.
#[derive(Debug)]
pub struct TriangleWave {
    pub frequency: u32,
    pub amplitude: i32,
    pub phase: u32,
    pub sample_rate: u32,
}

impl<F: Fn(i32, u32, u32) -> i64> SineWave<F> {
    /// A sine voice, unless the sample rate is zero or the phase lies
    /// outside the cycle.
    pub fn new(frequency: u32, amplitude: i32, phase: u32, sample_rate: u32, shape: F) -> (wave:
        Option<Self>)
        ensures
            wave.is_some() <==> phase < sample_rate,
            wave.is_some() ==> wave.unwrap() == (SineWave {
                frequency,
                amplitude,
                phase,
                sample_rate,
                shape,
            }),
            wave.is_some() && (forall|at: u32|
                at < sample_rate ==> call_requires(shape, (amplitude, at, sample_rate)))
                ==> wave.unwrap().wf(),
    {
        if phase < sample_rate {
            Some(SineWave { frequency, amplitude, phase, sample_rate, shape })
        } else {
            None
        }
    }
}

impl<F: Fn(i32, u32, u32) -> i64> SampleProvider for SineWave<F> {
    /// The sample rate is positive, the phase lies within the cycle, and
    /// `shape` accepts every phase of the cycle.
    open spec fn wf(&self) -> bool {
        &&& self.sample_rate > 0
        &&& self.phase < self.sample_rate
        &&& forall|phase: u32|
            phase < self.sample_rate ==> call_requires(
                self.shape,
                (self.amplitude, phase, self.sample_rate),
            )
    }

    open spec fn yields(&self, sample: i64) -> bool {
        call_ensures(self.shape, (self.amplitude, self.phase, self.sample_rate), sample)
    }

    open spec fn advanced(&self) -> Self {
        SineWave {
            frequency: self.frequency,
            amplitude: self.amplitude,
            phase: next_phase(
                self.phase as int,
                self.frequency as int,
                self.sample_rate as int,
            ) as u32,
            sample_rate: self.sample_rate,
            shape: self.shape,
        }
    }

    proof fn advanced_wf(&self) {
    }

    fn get_sample(&mut self) -> (sample: i64) {
        let sample: i64 = (self.shape)(self.amplitude, self.phase, self.sample_rate);
        self.phase = advance_phase(self.phase, self.frequency, self.sample_rate);
        sample
    }
}

impl SquareWave {
    /// A square voice, unless the sample rate is zero or the phase lies
    /// outside the cycle.
    pub fn new(frequency: u32, amplitude: i32, phase: u32, sample_rate: u32) -> (wave: Option<Self>)
        ensures
            wave.is_some() <==> phase < sample_rate,
            wave.is_some() ==> wave.unwrap() == (SquareWave { frequency, amplitude, phase, sample_rate })
                && wave.unwrap().wf(),
    {
        if phase < sample_rate {
            Some(SquareWave { frequency, amplitude, phase, sample_rate })
        } else {
            None
        }
    }
}

impl SampleProvider for SquareWave {
    open spec fn wf(&self) -> bool {
        self.sample_rate > 0 && self.phase < self.sample_rate
    }

    open spec fn yields(&self, sample: i64) -> bool {
        sample == square_shape(self.amplitude as int, self.phase as int, self.sample_rate as int)
    }

    open spec fn advanced(&self) -> Self {
        SquareWave {
            frequency: self.frequency,
            amplitude: self.amplitude,
            phase: next_phase(
                self.phase as int,
                self.frequency as int,
                self.sample_rate as int,
            ) as u32,
            sample_rate: self.sample_rate,
        }
    }

    proof fn advanced_wf(&self) {
    }

    fn get_sample(&mut self) -> (sample: i64) {
        let sample: i64 = square_sample(self.amplitude, self.phase, self.sample_rate);
        self.phase = advance_phase(self.phase, self.frequency, self.sample_rate);
        sample
    }
}

impl TriangleWave {
    /// A triangle voice, unless the sample rate is zero or the phase lies
    /// outside the cycle.
    pub fn new(frequency: u32, amplitude: i32, phase: u32, sample_rate: u32) -> (wave: Option<Self>)
        ensures
            wave.is_some() <==> phase < sample_rate,
            wave.is_some() ==> wave.unwrap() == (TriangleWave { frequency, amplitude, phase, sample_rate })
                && wave.unwrap().wf(),
    {
        if phase < sample_rate {
            Some(TriangleWave { frequency, amplitude, phase, sample_rate })
        } else {
            None
        }
    }
}

impl SampleProvider for TriangleWave {
    open spec fn wf(&self) -> bool {
        self.sample_rate > 0 && self.phase < self.sample_rate
    }

    open spec fn yields(&self, sample: i64) -> bool {
        sample == triangle_shape(self.amplitude as int, self.phase as int, self.sample_rate as int)
    }

    open spec fn advanced(&self) -> Self {
        TriangleWave {
            frequency: self.frequency,
            amplitude: self.amplitude,
            phase: next_phase(
                self.phase as int,
                self.frequency as int,
                self.sample_rate as int,
            ) as u32,
            sample_rate: self.sample_rate,
        }
    }

    proof fn advanced_wf(&self) {
    }

    fn get_sample(&mut self) -> (sample: i64) {
        let sample: i64 = triangle_sample(self.amplitude, self.phase, self.sample_rate);
        self.phase = advance_phase(self.phase, self.frequency, self.sample_rate);
        sample
    }
}

/// A voice of any of the three waveforms, so that one mixer can hold them
/// side by side.
pub enum Generator<F: Fn(i32, u32, u32) -> i64> {
    Sine(SineWave<F>),
    Square(SquareWave),
    Triangle(TriangleWave),
}

impl<F: Fn(i32, u32, u32) -> i64> SampleProvider for Generator<F> {
    open spec fn wf(&self) -> bool {
        match self {
            Generator::Sine(wave) => wave.wf(),
            Generator::Square(wave) => wave.wf(),
            Generator::Triangle(wave) => wave.wf(),
        }
    }

    open spec fn yields(&self, sample: i64) -> bool {
        match self {
            Generator::Sine(wave) => wave.yields(sample),
            Generator::Square(wave) => wave.yields(sample),
            Generator::Triangle(wave) => wave.yields(sample),
        }
    }

    open spec fn advanced(&self) -> Self {
        match self {
            Generator::Sine(wave) => Generator::Sine(wave.advanced()),
            Generator::Square(wave) => Generator::Square(wave.advanced()),
            Generator::Triangle(wave) => Generator::Triangle(wave.advanced()),
        }
    }

    proof fn advanced_wf(&self) {
    }

    fn get_sample(&mut self) -> (sample: i64) {
        match self {
            Generator::Sine(wave) => wave.get_sample(),
            Generator::Square(wave) => wave.get_sample(),
            Generator::Triangle(wave) => wave.get_sample(),
        }
    }
}

/// A voice whose frequency equals its sample rate goes through one whole
/// cycle per sample period: its phase is the same after every pull.
pub proof fn full_rate_keeps_phase(phase: int, sample_rate: int)
    requires
        0 <= phase < sample_rate,
    ensures
        next_phase(phase, sample_rate, sample_rate) == phase,
{
    lemma_mod_add_multiples_vanish(phase, sample_rate);
    lemma_small_mod(phase as nat, sample_rate as nat);
}

/// After `pulls` pulls the phase has moved on by `pulls * frequency` ticks,
/// wrapped into the cycle.
pub proof fn phase_after_closed_form(phase: int, frequency: int, sample_rate: int, pulls: nat)
    requires
        0 <= phase < sample_rate,
    ensures
        phase_after(phase, frequency, sample_rate, pulls) == (phase + pulls * frequency)
            % sample_rate,
    decreases pulls,
{
    if pulls == 0 {
        lemma_small_mod(phase as nat, sample_rate as nat);
        assert(pulls * frequency == 0) by (nonlinear_arith)
            requires
                pulls == 0,
        ;
    } else {
        let earlier = (pulls - 1) as nat;
        phase_after_closed_form(phase, frequency, sample_rate, earlier);
        lemma_add_mod_noop_right(frequency, phase + earlier * frequency, sample_rate);
        assert(pulls * frequency == earlier * frequency + frequency) by (nonlinear_arith)
            requires
                pulls == earlier + 1,
        ;
    }
}

/// A voice of any frequency is back at its phase after `sample_rate` pulls:
/// by then it has gone through `frequency` whole cycles.
pub proof fn phase_returns_after_one_second(phase: int, frequency: int, sample_rate: int)
    requires
        0 <= phase < sample_rate,
    ensures
        phase_after(phase, frequency, sample_rate, sample_rate as nat) == phase,
{
    phase_after_closed_form(phase, frequency, sample_rate, sample_rate as nat);
    lemma_mod_multiples_vanish(frequency, phase, sample_rate);
    lemma_small_mod(phase as nat, sample_rate as nat);
}

/// A sine voice at full rate is unchanged by a pull, so every pull hands
/// its shape function the same arguments.
pub proof fn sine_repeats_at_full_rate<F: Fn(i32, u32, u32) -> i64>(wave: SineWave<F>)
    requires
        wave.wf(),
        wave.frequency == wave.sample_rate,
    ensures
        wave.advanced() == wave,
        forall|sample: i64| wave.advanced().yields(sample) == wave.yields(sample),
{
    full_rate_keeps_phase(wave.phase as int, wave.sample_rate as int);
}

/// A square voice at full rate is unchanged by a pull, so every pull hands
/// out the same sample.
pub proof fn square_repeats_at_full_rate(wave: SquareWave)
    requires
        wave.wf(),
        wave.frequency == wave.sample_rate,
    ensures
        wave.advanced() == wave,
        forall|sample: i64| wave.advanced().yields(sample) == wave.yields(sample),
{
    full_rate_keeps_phase(wave.phase as int, wave.sample_rate as int);
}

/// A triangle voice at full rate is unchanged by a pull, so every pull hands
/// out the same sample.
pub proof fn triangle_repeats_at_full_rate(wave: TriangleWave)
    requires
        wave.wf(),
        wave.frequency == wave.sample_rate,
    ensures
        wave.advanced() == wave,
        forall|sample: i64| wave.advanced().yields(sample) == wave.yields(sample),
{
    full_rate_keeps_phase(wave.phase as int, wave.sample_rate as int);
}

/// The triangle starts its cycle at the trough.
pub proof fn triangle_starts_at_trough(amplitude: int, sample_rate: int)
    requires
        0 < sample_rate,
    ensures
        triangle_shape(amplitude, 0, sample_rate) == -amplitude,
{
    lemma_div_multiples_vanish(magnitude(amplitude), sample_rate);
    lemma_mul_is_commutative(magnitude(amplitude), sample_rate);
}

/// The triangle has no jump at the middle of the cycle: there the rising
/// ramp and the falling ramp both reach the peak.
pub proof fn triangle_ramps_meet_at_half(amplitude: int, phase: int, sample_rate: int)
    requires
        0 < sample_rate,
        2 * phase == sample_rate,
    ensures
        scale_toward_zero(amplitude, 4 * phase - sample_rate, sample_rate) == amplitude,
        scale_toward_zero(amplitude, 3 * sample_rate - 4 * phase, sample_rate) == amplitude,
        triangle_shape(amplitude, phase, sample_rate) == amplitude,
{
    lemma_div_multiples_vanish(magnitude(amplitude), sample_rate);
    lemma_mul_is_commutative(magnitude(amplitude), sample_rate);
}

/// The triangle never leaves the range that the amplitude spans.
pub proof fn triangle_within_amplitude(amplitude: int, phase: int, sample_rate: int)
    requires
        0 <= phase < sample_rate,
    ensures
        -magnitude(amplitude) <= triangle_shape(amplitude, phase, sample_rate) <= magnitude(
            amplitude,
        ),
{
    let size = magnitude(amplitude);
    let slope = magnitude(triangle_slope(phase, sample_rate));
    assert(slope <= sample_rate);
    lemma_mul_inequality(slope, sample_rate, size);
    lemma_mul_is_commutative(size, slope);
    lemma_mul_is_commutative(size, sample_rate);
    lemma_div_is_ordered(size * slope, size * sample_rate, sample_rate);
    lemma_div_multiples_vanish(size, sample_rate);
    assert(0 <= size * slope) by (nonlinear_arith)
        requires
            0 <= size,
            0 <= slope,
    ;
    lemma_div_is_ordered(0, size * slope, sample_rate);
}

/// A voice whose frequency divides its sample rate is back at its phase
/// after `sample_rate / frequency` pulls: the phase wraps once per cycle.
pub proof fn phase_returns_after_one_cycle(phase: int, frequency: int, sample_rate: int)
    requires
        0 <= phase < sample_rate,
        0 < frequency,
        sample_rate % frequency == 0,
    ensures
        phase_after(phase, frequency, sample_rate, (sample_rate / frequency) as nat) == phase,
{
    let pulls = sample_rate / frequency;
    lemma_fundamental_div_mod(sample_rate, frequency);
    lemma_mul_is_commutative(frequency, pulls);
    assert(0 <= pulls) by (nonlinear_arith)
        requires
            pulls * frequency == sample_rate,
            0 < frequency,
            0 < sample_rate,
    ;
    phase_after_closed_form(phase, frequency, sample_rate, pulls as nat);
    full_rate_keeps_phase(phase, sample_rate);
}

/// The quotient and the remainder of a division by a positive number.
proof fn quotient_and_remainder(x: int, d: int) -> (parts: (int, int))
    requires
        0 < d,
    ensures
        parts.0 == x / d,
        x == d * parts.0 + parts.1,
        0 <= parts.1 < d,
{
    lemma_fundamental_div_mod(x, d);
    lemma_mod_bound(x, d);
    (x / d, x % d)
}

/// Two numerators that are at most four apart are scaled to samples that
/// are at most `4 * |amplitude| / denominator + 1` apart.
pub proof fn scale_steps_are_small(amplitude: int, one: int, other: int, denominator: int)
    requires
        0 < denominator,
        -4 <= other - one <= 4,
    ensures
        magnitude(
            scale_toward_zero(amplitude, other, denominator) - scale_toward_zero(
                amplitude,
                one,
                denominator,
            ),
        ) <= (4 * magnitude(amplitude)) / denominator + 1,
{
    let size = magnitude(amplitude);
    let x = magnitude(one);
    let y = magnitude(other);
    let d = denominator;
    let (q0, r0) = quotient_and_remainder(size * x, d);
    let (q1, r1) = quotient_and_remainder(size * y, d);
    let (m, r) = quotient_and_remainder(4 * size, d);
    if (one < 0) == (other < 0) {
        assert(-4 <= y - x <= 4);
        assert(size * y - size * x <= 4 * size && size * x - size * y <= 4 * size)
            by (nonlinear_arith)
            requires
                0 <= size,
                -4 <= y - x <= 4,
        ;
        assert(d * (q1 - q0) < d * (m + 2) && d * (q0 - q1) < d * (m + 2)) by (nonlinear_arith)
            requires
                size * x == d * q0 + r0,
                size * y == d * q1 + r1,
                4 * size == d * m + r,
                0 <= r0 < d,
                0 <= r1 < d,
                0 <= r < d,
                size * y - size * x <= 4 * size,
                size * x - size * y <= 4 * size,
        ;
        assert(q1 - q0 < m + 2 && q0 - q1 < m + 2) by (nonlinear_arith)
            requires
                0 < d,
                d * (q1 - q0) < d * (m + 2),
                d * (q0 - q1) < d * (m + 2),
        ;
    } else {
        assert(x + y <= 4);
        assert(size * x + size * y <= 4 * size) by (nonlinear_arith)
            requires
                0 <= size,
                x + y <= 4,
        ;
        assert(d * (q0 + q1) < d * (m + 1)) by (nonlinear_arith)
            requires
                size * x == d * q0 + r0,
                size * y == d * q1 + r1,
                4 * size == d * m + r,
                0 <= r0 < d,
                0 <= r1 < d,
                0 <= r < d,
                size * x + size * y <= 4 * size,
        ;
        assert(q0 + q1 < m + 1) by (nonlinear_arith)
            requires
                0 < d,
                d * (q0 + q1) < d * (m + 1),
        ;
        assert(0 <= size * x && 0 <= size * y) by (nonlinear_arith)
            requires
                0 <= size,
                0 <= x,
                0 <= y,
        ;
        lemma_div_is_ordered(0, size * x, d);
        lemma_div_is_ordered(0, size * y, d);
    }
}

/// The triangle has no jump anywhere in the cycle: from one tick to the
/// next the sample moves by at most `4 * |amplitude| / sample_rate + 1`,
/// across the middle of the cycle too.
pub proof fn triangle_steps_are_small(amplitude: int, phase: int, sample_rate: int)
    requires
        0 <= phase,
        phase + 1 < sample_rate,
    ensures
        magnitude(
            triangle_shape(amplitude, phase + 1, sample_rate) - triangle_shape(
                amplitude,
                phase,
                sample_rate,
            ),
        ) <= (4 * magnitude(amplitude)) / sample_rate + 1,
{
    scale_steps_are_small(
        amplitude,
        triangle_slope(phase, sample_rate),
        triangle_slope(phase + 1, sample_rate),
        sample_rate,
    );
}

/// A square voice hands out one sample only.
pub proof fn square_is_exact(wave: SquareWave)
    ensures
        exact(wave),
{
}

/// A triangle voice hands out one sample only.
pub proof fn triangle_is_exact(wave: TriangleWave)
    ensures
        exact(wave),
{
}

/// A generator that holds a square or a triangle voice hands out one sample
/// only; one that holds a sine voice hands out what its shape function does.
pub proof fn generator_is_exact_unless_sine<F: Fn(i32, u32, u32) -> i64>(generator: Generator<F>)
    ensures
        generator is Square || generator is Triangle ==> exact(generator),
        generator matches Generator::Sine(wave) ==> forall|sample: i64|
            generator.yields(sample) == call_ensures(
                wave.shape,
                (wave.amplitude, wave.phase, wave.sample_rate),
                sample,
            ),
{
}

/// Pulls move nothing of a sine voice but its phase, which after `pulls`
/// pulls is what `phase_after` says.
pub proof fn sine_phase_after<F: Fn(i32, u32, u32) -> i64>(wave: SineWave<F>, pulls: nat)
    requires
        wave.wf(),
    ensures
        advanced_by(wave, pulls).wf(),
        advanced_by(wave, pulls) == (SineWave {
            phase: phase_after(
                wave.phase as int,
                wave.frequency as int,
                wave.sample_rate as int,
                pulls,
            ) as u32,
            ..wave
        }),
        advanced_by(wave, pulls).phase == phase_after(
            wave.phase as int,
            wave.frequency as int,
            wave.sample_rate as int,
            pulls,
        ),
    decreases pulls,
{
    if pulls > 0 {
        sine_phase_after(wave, (pulls - 1) as nat);
    }
}

/// Pulls move nothing of a square voice but its phase, which after `pulls`
/// pulls is what `phase_after` says.
pub proof fn square_phase_after(wave: SquareWave, pulls: nat)
    requires
        wave.wf(),
    ensures
        advanced_by(wave, pulls).wf(),
        advanced_by(wave, pulls) == (SquareWave {
            phase: phase_after(
                wave.phase as int,
                wave.frequency as int,
                wave.sample_rate as int,
                pulls,
            ) as u32,
            ..wave
        }),
        advanced_by(wave, pulls).phase == phase_after(
            wave.phase as int,
            wave.frequency as int,
            wave.sample_rate as int,
            pulls,
        ),
    decreases pulls,
{
    if pulls > 0 {
        square_phase_after(wave, (pulls - 1) as nat);
    }
}

/// Pulls move nothing of a triangle voice but its phase, which after
/// `pulls` pulls is what `phase_after` says.
pub proof fn triangle_phase_after(wave: TriangleWave, pulls: nat)
    requires
        wave.wf(),
    ensures
        advanced_by(wave, pulls).wf(),
        advanced_by(wave, pulls) == (TriangleWave {
            phase: phase_after(
                wave.phase as int,
                wave.frequency as int,
                wave.sample_rate as int,
                pulls,
            ) as u32,
            ..wave
        }),
        advanced_by(wave, pulls).phase == phase_after(
            wave.phase as int,
            wave.frequency as int,
            wave.sample_rate as int,
            pulls,
        ),
    decreases pulls,
{
    if pulls > 0 {
        triangle_phase_after(wave, (pulls - 1) as nat);
    }
}

/// A square voice is back in the state it started from after
/// `sample_rate` pulls, whatever its frequency.
pub proof fn square_repeats_after_one_second(wave: SquareWave)
    requires
        wave.wf(),
    ensures
        advanced_by(wave, wave.sample_rate as nat) == wave,
{
    square_phase_after(wave, wave.sample_rate as nat);
    phase_returns_after_one_second(
        wave.phase as int,
        wave.frequency as int,
        wave.sample_rate as int,
    );
}

/// A triangle voice is back in the state it started from after
/// `sample_rate` pulls, whatever its frequency.
pub proof fn triangle_repeats_after_one_second(wave: TriangleWave)
    requires
        wave.wf(),
    ensures
        advanced_by(wave, wave.sample_rate as nat) == wave,
{
    triangle_phase_after(wave, wave.sample_rate as nat);
    phase_returns_after_one_second(
        wave.phase as int,
        wave.frequency as int,
        wave.sample_rate as int,
    );
}

/// A sine voice is back in the state it started from after `sample_rate`
/// pulls, whatever its frequency.
pub proof fn sine_repeats_after_one_second<F: Fn(i32, u32, u32) -> i64>(wave: SineWave<F>)
    requires
        wave.wf(),
    ensures
        advanced_by(wave, wave.sample_rate as nat) == wave,
{
    sine_phase_after(wave, wave.sample_rate as nat);
    phase_returns_after_one_second(
        wave.phase as int,
        wave.frequency as int,
        wave.sample_rate as int,
    );
}

} // verus!
