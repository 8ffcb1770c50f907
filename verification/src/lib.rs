//! A sample-mixing engine for unsigned PCM: a circular sample store with a
//! playback cursor, a control interface, and the per-period mixing step that
//! turns stored samples into volume-scaled unsigned 16-bit output.
//!
//! Samples are stored as unsigned 8-bit or 16-bit codes around a centre
//! (128 or 32768). Mixing turns a stored code into a signed deviation from
//! that centre, runs it through the gain ladder of its width, and adds the
//! output centre, 32768. Both ladders keep every result within the unsigned
//! 16-bit output range, so the output is exact: nothing wraps and nothing is
//! clamped.

pub mod control;
pub mod descriptor;
pub mod ring;
pub mod sample;
pub mod sound;

pub use crate::control::Control;
pub use crate::descriptor::StreamDescriptor;
pub use crate::sample::{Sample, OUTPUT_BIAS};
pub use crate::sound::{Sound, SoundState};
