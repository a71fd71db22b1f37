//! Verified core of an additive-synthesis engine for the 88 keys of a piano.
//!
//! The waveform of each key is a sum of up to 64 harmonics, each shaped by an
//! amplitude curve and a phase curve. One cycle of each waveform is computed
//! in the background and played in a loop when the key is pressed. This
//! crate holds the rules of that engine, each with a contract that Verus
//! proves:
//!
//! - [`tuning`] and [`constants`]: the period of each key and the number of
//!   harmonics it can carry without aliasing, exact in integer arithmetic;
//! - [`engine::curves`] and [`engine::harmonic_table`]: the curve generator
//!   and the tables it fills;
//! - [`engine::synthesizer`]: which harmonics are summed for a key, and over
//!   how many samples;
//! - [`engine::scheduler`]: the state machine by which stale buffers are
//!   claimed, computed and swapped in;
//! - [`voice`] and [`engine::playback`]: the voices that play the buffers,
//!   with their fades;
//! - [`gui::curve_controls`]: what an edit in the editor does to the engine.
//!
//! The engine never computes with samples, amplitudes or phases: it stores
//! them, moves them and hands them out. Their type `T` is a parameter, and
//! whoever uses the engine supplies the arithmetic on it: the value of a sine
//! curve at a bucket, and the value of a waveform at a sample. Of `T` the
//! engine asks at most that it can be copied and that its default value
//! stands for zero.

pub mod constants;
pub mod engine;
pub mod gui;
pub mod params;
pub mod tuning;
pub mod voice;
