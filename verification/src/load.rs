//! Synthetic voltage data for load generation.
//!
//! A load generator sends the same block of samples for every channel of
//! every frame, marked so that a receiver can tell frames and digitizers
//! apart: the first sample of a channel holds the frame number, the second
//! the digitizer identifier, and all others a fixed filler.

use vstd::prelude::*;

verus! {

/// Number of channels in a generated frame.
pub const CHANNEL_COUNT: usize = 8;

/// Value of every sample that carries no mark.
pub const FILLER: u16 = 404;

/// The low sixteen bits of a frame number, as a sample can hold them.
pub open spec fn frame_mark(frame_number: u32) -> u16 {
    (frame_number % 0x1_0000) as u16
}

/// The samples of one channel before any frame is stamped on them:
/// `measurements` fillers, with the digitizer identifier at index 1.
pub open spec fn template(measurements: nat, digitizer_id: u8) -> Seq<u16> {
    Seq::new(
        measurements,
        |k: int|
            if k == 1 {
                digitizer_id as u16
            } else {
                FILLER
            },
    )
}

/// The samples of one channel of frame `frame_number`.
pub open spec fn stamped(samples: Seq<u16>, frame_number: u32) -> Seq<u16> {
    samples.update(0, frame_mark(frame_number))
}

/// Builds the samples of one channel. A channel needs room for both
/// marks, so `measurements` is at least two.
pub fn channel_template(measurements: usize, digitizer_id: u8) -> (data: Vec<u16>)
    requires
        measurements >= 2,
    ensures
        data@ == template(measurements as nat, digitizer_id),
{
    let mut data: Vec<u16> = Vec::new();
    let mut k: usize = 0;
    while k < measurements
        invariant
            k <= measurements,
            data@.len() == k,
            forall|j: int| 0 <= j < k ==> data@[j] == FILLER,
        decreases measurements - k,
    {
        data.push(FILLER);
        k += 1;
    }
    data.set(1, digitizer_id as u16);
    data
}

/// Builds the samples of all channels of one digitizer.
pub fn voltage_data(measurements: usize, digitizer_id: u8) -> (data: Vec<Vec<u16>>)
    requires
        measurements >= 2,
    ensures
        data@.len() == CHANNEL_COUNT,
        forall|c: int|
            0 <= c < CHANNEL_COUNT ==> (#[trigger] data@[c])@ == template(
                measurements as nat,
                digitizer_id,
            ),
{
    let mut data: Vec<Vec<u16>> = Vec::new();
    let mut c: usize = 0;
    while c < CHANNEL_COUNT
        invariant
            c <= CHANNEL_COUNT,
            measurements >= 2,
            data@.len() == c,
            forall|j: int|
                0 <= j < c ==> (#[trigger] data@[j])@ == template(measurements as nat, digitizer_id),
        decreases CHANNEL_COUNT - c,
    {
        data.push(channel_template(measurements, digitizer_id));
        c += 1;
    }
    data
}

/// Stamps a frame number on every channel: the first sample of each
/// channel becomes the frame's mark, and nothing else changes.
pub fn stamp_frame(data: &mut Vec<Vec<u16>>, frame_number: u32)
    requires
        forall|c: int| 0 <= c < old(data)@.len() ==> (#[trigger] old(data)@[c])@.len() >= 1,
    ensures
        final(data)@.len() == old(data)@.len(),
        forall|c: int|
            0 <= c < old(data)@.len() ==> (#[trigger] final(data)@[c])@ == stamped(
                old(data)@[c]@,
                frame_number,
            ),
{
    let mark: u16 = (frame_number % 0x1_0000) as u16;
    let count = data.len();
    let mut c: usize = 0;
    while c < count
        invariant
            c <= count,
            count == old(data)@.len(),
            data@.len() == count,
            mark == frame_mark(frame_number),
            forall|j: int| 0 <= j < count ==> (#[trigger] old(data)@[j])@.len() >= 1,
            forall|j: int| 0 <= j < c ==> (#[trigger] data@[j])@ == stamped(old(data)@[j]@, frame_number),
            forall|j: int| c <= j < count ==> #[trigger] data@[j] == old(data)@[j],
        decreases count - c,
    {
        let channel = &mut data[c];
        channel[0] = mark;
        c += 1;
    }
}

/// The number of the frame after `frame_number`, or `None` where the
/// counter is exhausted.
pub fn next_frame_number(frame_number: u32) -> (next: Option<u32>)
    ensures
        next == if frame_number < u32::MAX {
            Some((frame_number + 1) as u32)
        } else {
            None
        },
{
    frame_number.checked_add(1)
}

} // verus!
