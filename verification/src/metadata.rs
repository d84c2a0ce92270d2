//! What the header packets say of a stream.

use vstd::prelude::*;

verus! {

/// The rate at which decoded samples come out, whatever rate the header declares.
pub const DECODE_SAMPLE_RATE: u32 = 48_000;

/// Metadata of a stream, made once from its two header packets.
#[derive(Clone, Copy, Debug, PartialEq, Eq, Structural)]
pub struct StreamMetadata {
    /// Number of channels that the header declares.
    pub channel_count: u8,
    /// Sample rate by which buffers are sized.
    pub sample_rate: u32,
}

/// Channel mode of the decoder handle.
#[derive(Clone, Copy, Debug, PartialEq, Eq, Structural)]
pub enum ChannelMode {
    Mono,
    Stereo,
}

impl StreamMetadata {
    /// The mode to configure the decoder handle with: mono for one channel,
    /// stereo for any other count.
    pub fn channel_mode(&self) -> (mode: ChannelMode)
        ensures
            mode == if self.channel_count == 1 {
                ChannelMode::Mono
            } else {
                ChannelMode::Stereo
            },
    {
        if self.channel_count == 1 {
            ChannelMode::Mono
        } else {
            ChannelMode::Stereo
        }
    }
}

} // verus!
