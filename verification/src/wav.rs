//! The fixed format of a recording.

use vstd::prelude::*;

verus! {

/// Highest sample rate at which the byte rate of a 16-bit stereo stream still
/// fits the 32-bit field of the container's header.
pub const MAX_SAMPLE_RATE: u32 = 1_073_741_823;

/// How the samples of a container are stored.
#[derive(Clone, Copy, Debug, PartialEq, Eq, Structural)]
pub enum SampleKind {
    /// Signed integers (PCM).
    Int,
    /// IEEE floating point.
    Float,
}

/// The audio properties that a container declares in its header.
#[derive(Clone, Copy, Debug, PartialEq, Eq, Structural)]
pub struct WavFormat {
    /// Number of interleaved channels.
    pub channels: u16,
    /// Frames per second.
    pub sample_rate: u32,
    /// Bits in one sample of one channel.
    pub bits_per_sample: u16,
    /// Integer or floating-point samples.
    pub sample_kind: SampleKind,
}

impl WavFormat {
    /// A format in which pairs of 16-bit samples can be recorded: two channels
    /// of 16-bit signed integers, at a rate that is positive and whose byte rate
    /// fits the header.
    pub open spec fn recordable(&self) -> bool {
        &&& self.channels == 2
        &&& self.bits_per_sample == 16
        &&& self.sample_kind == SampleKind::Int
        &&& 0 < self.sample_rate <= MAX_SAMPLE_RATE
    }

    /// Tells whether pairs of 16-bit samples can be recorded in this format.
    pub fn is_recordable(&self) -> (yes: bool)
        ensures
            yes == self.recordable(),
    {
        self.channels == 2 && self.bits_per_sample == 16 && self.sample_kind == SampleKind::Int
            && 0 < self.sample_rate && self.sample_rate <= MAX_SAMPLE_RATE
    }
}

/// The format of every recording: stereo, 48 kHz, 16-bit signed integer PCM.
pub open spec fn recording_format() -> WavFormat {
    WavFormat { channels: 2, sample_rate: 48000, bits_per_sample: 16, sample_kind: SampleKind::Int }
}

/// Returns the format of every recording.
pub fn wav_spec() -> (format: WavFormat)
    ensures
        format == recording_format(),
        format.recordable(),
{
    WavFormat { channels: 2, sample_rate: 48000, bits_per_sample: 16, sample_kind: SampleKind::Int }
}

} // verus!
