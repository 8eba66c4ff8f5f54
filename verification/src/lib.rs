//! A tone mixing engine in whole numbers.
//!
//! Waveform generators keep their position in the cycle as a whole number of
//! ticks, of which `sample_rate` make one cycle, and hand out whole-number
//! samples: the square and the triangle compute theirs, the sine asks a
//! function that its owner supplies. The mixer owns any number of generators
//! and sums one sample of each per pull; the buffer adapter fills an output
//! buffer slot by slot; the keypad turns key events into voices. The
//! library's own arithmetic is exact and proved free of overflow.

pub mod audio;
pub mod mixer;
pub mod tones;
pub mod waves;
