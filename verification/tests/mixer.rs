use tone_mixer::audio::fill_buffer;
use tone_mixer::mixer::{AudioMixer, SampleProvider};
use tone_mixer::waves::{Generator, SquareWave, TriangleWave};

type Shape = fn(i32, u32, u32) -> i64;

type Voice = Generator<Shape>;

fn square(frequency: u32, amplitude: i32, rate: u32) -> Voice {
    Generator::Square(SquareWave::new(frequency, amplitude, 0, rate).unwrap())
}

fn triangle(frequency: u32, amplitude: i32, rate: u32) -> Voice {
    Generator::Triangle(TriangleWave::new(frequency, amplitude, 0, rate).unwrap())
}

#[test]
fn empty_mixer_is_silent() {
    let mut mixer: AudioMixer<Voice> = AudioMixer::new();
    assert_eq!(mixer.len(), 0);
    for _ in 0..1000 {
        assert_eq!(mixer.get_mixed_sample(), 0);
    }
}

#[test]
fn one_voice_is_mixed_unchanged() {
    let mut mixer: AudioMixer<Voice> = AudioMixer::new();
    mixer.add_channel(triangle(1, 1000, 8));
    let mut alone = triangle(1, 1000, 8);
    for _ in 0..20 {
        assert_eq!(mixer.get_mixed_sample(), alone.get_sample() as i128);
    }
}

#[test]
fn two_voices_are_summed() {
    let mut mixer: AudioMixer<Voice> = AudioMixer::new();
    mixer.add_channel(square(1, 100, 4));
    mixer.add_channel(triangle(1, 1000, 8));
    let pulled: Vec<i128> = (0..8).map(|_| mixer.get_mixed_sample()).collect();
    assert_eq!(pulled, vec![-900, -400, -100, 400, 1100, 600, -100, -600]);
}

#[test]
fn three_voices_are_summed() {
    let mut mixer: AudioMixer<Voice> = AudioMixer::new();
    mixer.add_channel(square(3, 70, 10));
    mixer.add_channel(triangle(2, 900, 16));
    mixer.add_channel(square(1, -5, 2));
    assert_eq!(mixer.len(), 3);
    let mut first = square(3, 70, 10);
    let mut second = triangle(2, 900, 16);
    let mut third = square(1, -5, 2);
    for _ in 0..50 {
        let expected = first.get_sample() + second.get_sample() + third.get_sample();
        assert_eq!(mixer.get_mixed_sample(), expected as i128);
    }
}

#[test]
fn mix_does_not_depend_on_the_order_of_the_voices() {
    let mut forward: AudioMixer<Voice> = AudioMixer::new();
    forward.add_channel(square(3, 70, 10));
    forward.add_channel(triangle(2, 900, 16));
    let mut backward: AudioMixer<Voice> = AudioMixer::new();
    backward.add_channel(triangle(2, 900, 16));
    backward.add_channel(square(3, 70, 10));
    for _ in 0..40 {
        assert_eq!(forward.get_mixed_sample(), backward.get_mixed_sample());
    }
}

#[test]
fn mix_of_extreme_samples_does_not_overflow() {
    let mut mixer: AudioMixer<Voice> = AudioMixer::new();
    for _ in 0..4 {
        mixer.add_channel(Generator::Square(SquareWave::new(0, i32::MIN, 1, 2).unwrap()));
    }
    assert_eq!(mixer.get_mixed_sample(), 4 * 2147483648);
}

#[test]
fn cleared_mixer_is_silent_and_empty() {
    let mut mixer: AudioMixer<Voice> = AudioMixer::new();
    mixer.add_channel(square(1, 100, 4));
    mixer.add_channel(triangle(1, 1000, 8));
    assert_eq!(mixer.get_mixed_sample(), -900);
    mixer.clear_channels();
    assert_eq!(mixer.len(), 0);
    assert_eq!(mixer.get_mixed_sample(), 0);
    assert_eq!(mixer.get_mixed_sample(), 0);
}

#[test]
fn removed_voice_is_handed_back_and_missing_from_the_mix() {
    let mut mixer: AudioMixer<Voice> = AudioMixer::new();
    mixer.add_channel(square(1, 100, 4));
    mixer.add_channel(triangle(1, 1000, 8));
    mixer.add_channel(square(1, 7, 4));
    let removed = mixer.remove_channel(1);
    assert!(matches!(removed, Some(Generator::Triangle(_))));
    assert_eq!(mixer.len(), 2);
    assert_eq!(mixer.get_mixed_sample(), 107);
    assert!(mixer.remove_channel(2).is_none());
    assert_eq!(mixer.len(), 2);
    let first = mixer.remove_channel(0);
    assert!(matches!(first, Some(Generator::Square(SquareWave { amplitude: 100, phase: 1, .. }))));
    assert_eq!(mixer.get_mixed_sample(), 7);
}

#[test]
fn added_voice_sounds_from_the_next_pull() {
    let mut mixer: AudioMixer<Voice> = AudioMixer::new();
    assert_eq!(mixer.get_mixed_sample(), 0);
    mixer.add_channel(square(1, 100, 4));
    assert_eq!(mixer.get_mixed_sample(), 100);
    mixer.add_channel(square(1, 30, 2));
    assert_eq!(mixer.get_mixed_sample(), 130);
    assert_eq!(mixer.get_mixed_sample(), -130);
    assert_eq!(mixer.get_mixed_sample(), -70);
    assert_eq!(mixer.len(), 2);
}

#[test]
fn buffer_gets_one_pull_per_slot_in_order() {
    let mut mixer: AudioMixer<Voice> = AudioMixer::new();
    mixer.add_channel(square(1, 100, 4));
    mixer.add_channel(triangle(1, 1000, 8));
    let mut data: Vec<i128> = vec![55; 8];
    fill_buffer(&mut mixer, &mut data);
    assert_eq!(data, vec![-900, -400, -100, 400, 1100, 600, -100, -600]);
    let mut next: Vec<i128> = vec![0; 2];
    fill_buffer(&mut mixer, &mut next);
    assert_eq!(next, vec![-900, -400]);
}

#[test]
fn empty_buffer_pulls_nothing() {
    let mut mixer: AudioMixer<Voice> = AudioMixer::new();
    mixer.add_channel(square(1, 100, 2));
    let mut data: Vec<i128> = Vec::new();
    fill_buffer(&mut mixer, &mut data);
    assert!(data.is_empty());
    assert_eq!(mixer.get_mixed_sample(), 100);
}

#[test]
fn buffer_of_an_empty_mixer_is_silence() {
    let mut mixer: AudioMixer<Voice> = AudioMixer::new();
    let mut data: Vec<i128> = vec![9; 735];
    fill_buffer(&mut mixer, &mut data);
    assert_eq!(data, vec![0; 735]);
}
