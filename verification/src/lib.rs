//! Phase-blend stereo synthesis for PCM audio.
//!
//! The library decodes a RIFF/WAVE container into 16-bit samples, collapses
//! interleaved channels into a mono sequence by per-frame averaging, widens
//! the mono signal into an out-of-phase stereo pair (optionally mixing in an
//! attenuated second signal), and re-encodes the result as a 16-bit stereo
//! PCM container.

pub mod container;
pub mod downmix;
pub mod samples;
pub mod stereo;
