//! Decoded trace frames, held as plain values.

use vstd::prelude::*;

verus! {

/// Voltage samples of one digitizer channel.
#[derive(Clone, Debug, PartialEq, Eq)]
pub struct ChannelTrace {
    /// Channel number within the digitizer.
    pub channel: u32,
    /// Samples in the order in which they were taken.
    pub voltage: Vec<u16>,
}

/// What a frame says about itself.
#[derive(Clone, Copy, Debug, PartialEq, Eq)]
pub struct FrameMetadata {
    /// Running number of the frame.
    pub frame_number: u32,
    /// Time of the frame in nanoseconds since the Unix epoch, if it was set.
    pub timestamp_ns: Option<i64>,
    /// Samples per second.
    pub sample_rate: u64,
}

/// One unit of detector data: the samples of every channel of one
/// digitizer for one frame.
#[derive(Clone, Debug, PartialEq, Eq)]
pub struct TraceFrame {
    /// Digitizer that produced the frame.
    pub digitizer_id: u8,
    /// One entry per channel.
    pub channels: Vec<ChannelTrace>,
    /// Frame number, time and sample rate.
    pub metadata: FrameMetadata,
}

} // verus!
