//! The keypad: which two tones each key sounds, and what a key event does
//! to the mixer.

use crate::mixer::{AudioMixer, SampleProvider};
use crate::waves::{Generator, SineWave};
use indexmap::IndexMap;
use std::hash::RandomState;
use vstd::prelude::*;

verus! {

/// The two tones that a key sounds at once, in Hz.
#[derive(Clone, Copy, Debug)]
pub struct Tones {
    pub low: u32,
    pub high: u32,
}

/// `indexmap::IndexMap`, a hash map that keeps its entries in the order in
/// which they were inserted. Opaque here: what a tone map holds is named by
/// `tone_entries`.
#[verifier::external_type_specification]
#[verifier::external_body]
#[verifier::reject_recursive_types(K)]
#[verifier::reject_recursive_types(V)]
#[verifier::reject_recursive_types(S)]
pub struct ExIndexMap<K, V, S>(IndexMap<K, V, S>);

/// What a tone map holds: for each of its keys the key's low and high
/// frequency in Hz.
pub uninterp spec fn tone_entries(map: IndexMap<char, Tones, RandomState>) -> Map<char, Tones>;

/// `IndexMap::new`: a map without entries.
#[verifier::external_body]
fn tone_map_new() -> (table: IndexMap<char, Tones, RandomState>)
    ensures
        tone_entries(table) =~= Map::empty(),
{
    IndexMap::new()
}

/// `IndexMap::insert`: afterwards `key` stands for `tones`, whether or not
/// the map held `key` before, and every other entry is as it was.
#[verifier::external_body]
fn tone_map_insert(map: &mut IndexMap<char, Tones, RandomState>, key: char, tones: Tones)
    ensures
        tone_entries(*final(map)) == tone_entries(*old(map)).insert(key, tones),
{
    map.insert(key, tones);
}

/// `IndexMap::get`: the value that `key` stands for, if the map holds `key`.
#[verifier::external_body]
fn tone_map_get(map: &IndexMap<char, Tones, RandomState>, key: char) -> (tones: Option<Tones>)
    ensures
        tones == if tone_entries(*map).contains_key(key) {
            Some(tone_entries(*map)[key])
        } else {
            None
        },
{
    map.get(&key).copied()
}

/// The two tones of a keypad key, low then high, in Hz; `None` for a
/// character that is no key.
pub open spec fn dtmf_tones(key: char) -> Option<Tones> {
    if key == '1' {
        Some(Tones { low: 697, high: 1209 })
    } else if key == '2' {
        Some(Tones { low: 697, high: 1336 })
    } else if key == '3' {
        Some(Tones { low: 697, high: 1477 })
    } else if key == '4' {
        Some(Tones { low: 770, high: 1209 })
    } else if key == '5' {
        Some(Tones { low: 770, high: 1336 })
    } else if key == '6' {
        Some(Tones { low: 770, high: 1477 })
    } else if key == '7' {
        Some(Tones { low: 852, high: 1209 })
    } else if key == '8' {
        Some(Tones { low: 852, high: 1336 })
    } else if key == '9' {
        Some(Tones { low: 852, high: 1477 })
    } else if key == '*' {
        Some(Tones { low: 941, high: 1209 })
    } else if key == '0' {
        Some(Tones { low: 941, high: 1336 })
    } else if key == '#' {
        Some(Tones { low: 941, high: 1477 })
    } else {
        None
    }
}

/// The tone table as a map: the twelve keys, each with its two tones.
pub open spec fn dtmf_table() -> Map<char, Tones> {
    Map::new(|key: char| dtmf_tones(key).is_some(), |key: char| dtmf_tones(key).unwrap())
}

/// Builds the tone map of the keypad, the keys in the order 0 to 9, `*`, `#`.
pub fn create_ordered_dtmf_map() -> (map: IndexMap<char, Tones, RandomState>)
    ensures
        tone_entries(map) == dtmf_table(),
{
    let mut map = tone_map_new();
    tone_map_insert(&mut map, '0', Tones { low: 941, high: 1336 });
    tone_map_insert(&mut map, '1', Tones { low: 697, high: 1209 });
    tone_map_insert(&mut map, '2', Tones { low: 697, high: 1336 });
    tone_map_insert(&mut map, '3', Tones { low: 697, high: 1477 });
    tone_map_insert(&mut map, '4', Tones { low: 770, high: 1209 });
    tone_map_insert(&mut map, '5', Tones { low: 770, high: 1336 });
    tone_map_insert(&mut map, '6', Tones { low: 770, high: 1477 });
    tone_map_insert(&mut map, '7', Tones { low: 852, high: 1209 });
    tone_map_insert(&mut map, '8', Tones { low: 852, high: 1336 });
    tone_map_insert(&mut map, '9', Tones { low: 852, high: 1477 });
    tone_map_insert(&mut map, '*', Tones { low: 941, high: 1209 });
    tone_map_insert(&mut map, '#', Tones { low: 941, high: 1477 });
    assert(tone_entries(map) =~= dtmf_table());
    map
}

/// Looks `key` up in `map`.
pub fn key_tones(map: &IndexMap<char, Tones, RandomState>, key: char) -> (tones: Option<Tones>)
    ensures
        tones.is_some() <==> tone_entries(*map).contains_key(key),
        tones.is_some() ==> tones.unwrap() == tone_entries(*map)[key],
        tone_entries(*map) == dtmf_table() ==> tones == dtmf_tones(key),
{
    tone_map_get(map, key)
}

/// What happens to a key of the keypad.
pub enum KeyEvent {
    /// The key went down.
    Pressed(char),
    /// The key came up.
    Released,
}

/// The sine voice that sounds one tone of a key from the start of its cycle.
pub open spec fn tone_voice<F: Fn(i32, u32, u32) -> i64>(
    frequency: u32,
    amplitude: i32,
    sample_rate: u32,
    shape: F,
) -> Generator<F> {
    Generator::Sine(SineWave { frequency, amplitude, phase: 0, sample_rate, shape })
}

/// The voices of the mixer after `event`: a key that `map` holds adds its
/// low tone and then its high tone, a release silences everything, and a
/// character that is no key, or a sample rate of zero, changes nothing.
pub open spec fn voices_after<F: Fn(i32, u32, u32) -> i64>(
    voices: Seq<Generator<F>>,
    entries: Map<char, Tones>,
    event: KeyEvent,
    amplitude: i32,
    sample_rate: u32,
    shape: F,
) -> Seq<Generator<F>> {
    match event {
        KeyEvent::Pressed(key) => if entries.contains_key(key) && sample_rate > 0 {
            voices.push(tone_voice(entries[key].low, amplitude, sample_rate, shape)).push(
                tone_voice(entries[key].high, amplitude, sample_rate, shape),
            )
        } else {
            voices
        },
        KeyEvent::Released => Seq::empty(),
    }
}

/// Applies a key event to the mixer.
pub fn handle_key_event<F: Fn(i32, u32, u32) -> i64 + Copy>(
    mixer: &mut AudioMixer<Generator<F>>,
    map: &IndexMap<char, Tones, RandomState>,
    event: KeyEvent,
    amplitude: i32,
    sample_rate: u32,
    shape: F,
)
    ensures
        final(mixer)@ == voices_after(
            old(mixer)@,
            tone_entries(*map),
            event,
            amplitude,
            sample_rate,
            shape,
        ),
        old(mixer).wf() && (forall|phase: u32|
            phase < sample_rate ==> call_requires(shape, (amplitude, phase, sample_rate)))
            ==> final(mixer).wf(),
{
    match event {
        KeyEvent::Pressed(key) => {
            if let Some(tones) = key_tones(map, key) {
                let low = SineWave::new(tones.low, amplitude, 0, sample_rate, shape);
                let high = SineWave::new(tones.high, amplitude, 0, sample_rate, shape);
                if let Some(low) = low {
                    if let Some(high) = high {
                        mixer.add_channel(Generator::Sine(low));
                        mixer.add_channel(Generator::Sine(high));
                    }
                }
            }
        },
        KeyEvent::Released => {
            mixer.clear_channels();
        },
    }
}

} // verus!
