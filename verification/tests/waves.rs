use tone_mixer::mixer::SampleProvider;
use tone_mixer::waves::{
    advance_phase, square_sample, triangle_sample, Generator, SineWave, SquareWave, TriangleWave,
};

type Shape = fn(i32, u32, u32) -> i64;

fn phase_as_sample(_amplitude: i32, phase: u32, _sample_rate: u32) -> i64 {
    phase as i64
}

#[test]
fn phase_advances_by_frequency_and_wraps() {
    assert_eq!(advance_phase(0, 220, 44100), 220);
    assert_eq!(advance_phase(3, 2, 4), 1);
    assert_eq!(advance_phase(44000, 220, 44100), 120);
    assert_eq!(advance_phase(1, 9, 4), 2);
}

#[test]
fn phase_sum_beyond_32_bits_wraps_correctly() {
    assert_eq!(advance_phase(u32::MAX - 1, u32::MAX, u32::MAX), u32::MAX - 1);
    assert_eq!(advance_phase(u32::MAX - 1, u32::MAX - 1, u32::MAX), u32::MAX - 2);
}

#[test]
fn constructors_reject_a_zero_sample_rate() {
    assert!(SineWave::new(440, 100, 0, 0, phase_as_sample).is_none());
    assert!(SquareWave::new(440, 100, 0, 0).is_none());
    assert!(TriangleWave::new(440, 100, 0, 0).is_none());
}

#[test]
fn constructors_reject_a_phase_outside_the_cycle() {
    assert!(SineWave::new(440, 100, 8, 8, phase_as_sample).is_none());
    assert!(SquareWave::new(440, 100, 9, 8).is_none());
    assert!(TriangleWave::new(440, 100, 8, 8).is_none());
    assert!(TriangleWave::new(440, 100, 7, 8).is_some());
}

#[test]
fn constructors_keep_their_arguments() {
    let wave = SquareWave::new(697, -5, 3, 44100).unwrap();
    assert_eq!(wave.frequency, 697);
    assert_eq!(wave.amplitude, -5);
    assert_eq!(wave.phase, 3);
    assert_eq!(wave.sample_rate, 44100);
}

#[test]
fn square_is_amplitude_then_its_negative() {
    let mut wave = SquareWave::new(1, 1000, 0, 4).unwrap();
    let pulled: Vec<i64> = (0..6).map(|_| wave.get_sample()).collect();
    assert_eq!(pulled, vec![1000, 1000, -1000, -1000, 1000, 1000]);
}

#[test]
fn square_breaks_exactly_at_half_the_cycle() {
    assert_eq!(square_sample(7, 4, 10), 7);
    assert_eq!(square_sample(7, 5, 10), -7);
    assert_eq!(square_sample(7, 5, 11), 7);
    assert_eq!(square_sample(7, 6, 11), -7);
}

#[test]
fn square_of_the_lowest_amplitude_does_not_overflow() {
    assert_eq!(square_sample(i32::MIN, 0, 2), -2147483648);
    assert_eq!(square_sample(i32::MIN, 1, 2), 2147483648);
}

#[test]
fn triangle_follows_both_ramps() {
    let mut wave = TriangleWave::new(1, 1000, 0, 8).unwrap();
    let pulled: Vec<i64> = (0..9).map(|_| wave.get_sample()).collect();
    assert_eq!(pulled, vec![-1000, -500, 0, 500, 1000, 500, 0, -500, -1000]);
}

#[test]
fn triangle_rounds_toward_zero() {
    assert_eq!(triangle_sample(10, 0, 3), -10);
    assert_eq!(triangle_sample(10, 1, 3), 3);
    assert_eq!(triangle_sample(10, 2, 3), 3);
    assert_eq!(triangle_sample(-10, 1, 3), -3);
    assert_eq!(triangle_sample(10, 1, 7), -4);
    assert_eq!(triangle_sample(-10, 1, 7), 4);
}

#[test]
fn triangle_has_no_jump_at_half_the_cycle() {
    let rate: u32 = 44100;
    let amplitude: i32 = 20000;
    let before = triangle_sample(amplitude, rate / 2 - 1, rate);
    let at = triangle_sample(amplitude, rate / 2, rate);
    let after = triangle_sample(amplitude, rate / 2 + 1, rate);
    assert_eq!(at, 20000);
    assert!((at - before).abs() <= 2);
    assert!((at - after).abs() <= 2);
    assert_eq!(triangle_sample(amplitude, 0, rate), -20000);
}

#[test]
fn triangle_of_extreme_values_stays_within_the_amplitude() {
    assert_eq!(triangle_sample(i32::MIN, 0, u32::MAX), 2147483648);
    assert_eq!(triangle_sample(i32::MAX, 0, u32::MAX), -2147483647);
    let high = triangle_sample(i32::MIN, u32::MAX - 1, u32::MAX);
    assert!(high.abs() <= 2147483648);
}

#[test]
fn full_rate_voice_repeats_its_sample() {
    let mut square = SquareWave::new(8, 300, 5, 8).unwrap();
    let mut triangle = TriangleWave::new(8, 300, 1, 8).unwrap();
    let mut sine = SineWave::new(8, 300, 3, 8, phase_as_sample).unwrap();
    for _ in 0..5 {
        assert_eq!(square.get_sample(), -300);
        assert_eq!(square.phase, 5);
        assert_eq!(triangle.get_sample(), -150);
        assert_eq!(triangle.phase, 1);
        assert_eq!(sine.get_sample(), 3);
        assert_eq!(sine.phase, 3);
    }
}

#[test]
fn phase_returns_after_sample_rate_pulls() {
    let mut wave = SquareWave::new(697, 1, 123, 1000).unwrap();
    for _ in 0..1000 {
        wave.get_sample();
        assert!(wave.phase < 1000);
    }
    assert_eq!(wave.phase, 123);
}

#[test]
fn sine_evaluates_its_shape_at_the_phase_before_the_advance() {
    let mut wave = SineWave::new(220, 2000, 0, 44100, phase_as_sample).unwrap();
    assert_eq!(wave.get_sample(), 0);
    assert_eq!(wave.get_sample(), 220);
    assert_eq!(wave.get_sample(), 440);
    assert_eq!(wave.phase, 660);
    assert_eq!(wave.amplitude, 2000);
    assert_eq!(wave.frequency, 220);
    assert_eq!(wave.sample_rate, 44100);
}

#[test]
fn sine_hands_its_shape_the_amplitude_and_the_sample_rate() {
    let mut wave = SineWave::new(1, -7, 2, 5, |a: i32, p: u32, r: u32| {
        a as i64 * 1_000_000 + p as i64 * 1000 + r as i64
    })
    .unwrap();
    assert_eq!(wave.get_sample(), -7_000_000 + 2005);
    assert_eq!(wave.get_sample(), -7_000_000 + 3005);
    assert_eq!(wave.get_sample(), -7_000_000 + 4005);
    assert_eq!(wave.get_sample(), -7_000_000 + 5);
}

#[test]
fn generator_pulls_the_voice_it_holds() {
    let mut sine: Generator<Shape> =
        Generator::Sine(SineWave::new(3, 1, 1, 4, phase_as_sample as Shape).unwrap());
    let mut square: Generator<Shape> = Generator::Square(SquareWave::new(1, 9, 1, 2).unwrap());
    let mut triangle: Generator<Shape> =
        Generator::Triangle(TriangleWave::new(2, 8, 0, 8).unwrap());
    assert_eq!(sine.get_sample(), 1);
    assert_eq!(sine.get_sample(), 0);
    assert_eq!(sine.get_sample(), 3);
    assert_eq!(square.get_sample(), -9);
    assert_eq!(square.get_sample(), 9);
    assert_eq!(triangle.get_sample(), -8);
    assert_eq!(triangle.get_sample(), 0);
    assert_eq!(triangle.get_sample(), 8);
}

#[test]
fn phase_wraps_once_per_cycle() {
    let mut wave = TriangleWave::new(4410, 500, 17, 44100).unwrap();
    let first = wave.get_sample();
    for _ in 0..9 {
        wave.get_sample();
    }
    assert_eq!(wave.phase, 17);
    assert_eq!(wave.get_sample(), first);
}

#[test]
fn triangle_moves_in_small_steps_through_the_whole_cycle() {
    let rate: u32 = 1000;
    let amplitude: i32 = 30000;
    let bound: i64 = 4 * 30000 / 1000 + 1;
    for phase in 0..rate - 1 {
        let here = triangle_sample(amplitude, phase, rate);
        let next = triangle_sample(amplitude, phase + 1, rate);
        assert!((next - here).abs() <= bound);
        assert!(here.abs() <= 30000);
    }
    assert_eq!(triangle_sample(amplitude, 250, rate), 0);
    assert_eq!(triangle_sample(amplitude, 500, rate), 30000);
    assert_eq!(triangle_sample(amplitude, 750, rate), 0);
    assert_eq!(triangle_sample(amplitude, 999, rate), -29880);
}
