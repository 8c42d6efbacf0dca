//! Two-channel recording into an always-valid WAV container.
//!
//! The crate holds the rules of a small recording daemon: how the output file
//! is named, which format it has, how two blocks of samples become one
//! interleaved stream in the container, and in which order a recording session
//! is set up on the audio graph. Talking to the audio graph, opening files and
//! converting floating-point samples is left to the program around it.

pub mod capture;
pub mod error;
pub mod naming;
pub mod ports;
pub mod sample;
pub mod session;
pub mod sink;
pub mod wav;
