use vstd::prelude::*;

verus! {

/// The buffer sizes, in frames, that a device supports for a stream.
#[derive(Clone, Copy, PartialEq, Eq, Structural, Debug)]
pub enum SupportedBufferSize {
    Range { min: u32, max: u32 },
    /// The platform does not tell before the stream starts.
    Unknown,
}

/// The buffer size a stream asks for.
#[derive(Clone, Copy, PartialEq, Eq, Structural, Debug)]
pub enum BufferSize {
    /// Whatever the platform picks.
    Default,
    /// Exactly this many frames per callback.
    Fixed(u32),
}

/// A stream format a device supports: channel count, sample rate and buffer sizes.
#[derive(Clone, Copy, PartialEq, Eq, Structural, Debug)]
pub struct SupportedStreamConfig {
    pub channels: u16,
    pub sample_rate: u32,
    pub buffer_size: SupportedBufferSize,
}

/// The format a stream is opened with.
#[derive(Clone, Copy, PartialEq, Eq, Structural, Debug)]
pub struct StreamConfig {
    pub channels: u16,
    pub sample_rate: u32,
    pub buffer_size: BufferSize,
}

/// The stream format for a supported configuration with the smallest buffer the device
/// allows, for the lowest latency; the platform's default when the range is unknown.
pub fn config_with_min_buffer(cfg: SupportedStreamConfig) -> (r: StreamConfig)
    ensures
        r.channels == cfg.channels,
        r.sample_rate == cfg.sample_rate,
        r.buffer_size == (match cfg.buffer_size {
            SupportedBufferSize::Range { min, max } => BufferSize::Fixed(min),
            SupportedBufferSize::Unknown => BufferSize::Default,
        }),
{
    let buffer_size = match cfg.buffer_size {
        SupportedBufferSize::Range { min, .. } => BufferSize::Fixed(min),
        SupportedBufferSize::Unknown => BufferSize::Default,
    };
    StreamConfig { channels: cfg.channels, sample_rate: cfg.sample_rate, buffer_size }
}

} // verus!
