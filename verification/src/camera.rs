//! The synthetic camera used where no capture device is available: MJPEG
//! frames whose size and fill byte follow the frame number.
use crate::config::CameraConfig;
use crate::frame::{FrameData, FrameFormat};
use std::time::SystemTime;
use vstd::prelude::*;

verus! {

/// The start of every synthetic frame: the JPEG start-of-image marker and a
/// JFIF application segment.
pub open spec fn mock_header() -> Seq<u8> {
    seq![
        0xFFu8, 0xD8, 0xFF, 0xE0, 0x00, 0x10, 0x4A, 0x46, 0x49, 0x46,
        0x00, 0x01, 0x01, 0x01, 0x00, 0x48, 0x00, 0x48, 0x00, 0x00,
    ]
}

/// The bytes of synthetic frame `frame_id`: the header, then
/// `1000 + frame_id % 500` copies of `frame_id % 256`, then the JPEG
/// end-of-image marker.
pub open spec fn mock_frame_bytes(frame_id: u64) -> Seq<u8> {
    mock_header() + Seq::new((1000 + frame_id % 500) as nat, |i: int| (frame_id % 256) as u8)
        + seq![0xFFu8, 0xD9]
}

/// The bytes of synthetic frame `frame_id`.
pub fn mock_frame_data(frame_id: u64) -> (data: Vec<u8>)
    ensures
        data@ == mock_frame_bytes(frame_id),
{
    let mut data: Vec<u8> = vec![
        0xFF, 0xD8, 0xFF, 0xE0, 0x00, 0x10, 0x4A, 0x46, 0x49, 0x46,
        0x00, 0x01, 0x01, 0x01, 0x00, 0x48, 0x00, 0x48, 0x00, 0x00,
    ];
    assert(data@ =~= mock_header());
    let pattern_size: usize = 1000 + (frame_id % 500) as usize;
    let pattern_byte: u8 = (frame_id % 256) as u8;
    let ghost fill = Seq::new((1000 + frame_id % 500) as nat, |i: int| (frame_id % 256) as u8);
    let mut i: usize = 0;
    while i < pattern_size
        invariant
            i <= pattern_size,
            pattern_size == 1000 + frame_id % 500,
            pattern_byte == frame_id % 256,
            fill == Seq::new((1000 + frame_id % 500) as nat, |i: int| (frame_id % 256) as u8),
            data@ =~= mock_header() + fill.take(i as int),
        decreases pattern_size - i,
    {
        data.push(pattern_byte);
        i = i + 1;
        assert(fill.take(i as int) =~= fill.take(i - 1).push(pattern_byte));
    }
    assert(fill.take(i as int) =~= fill);
    data.push(0xFF);
    data.push(0xD9);
    data
}

/// Synthetic frame `frame_id`, stamped `timestamp`, at the configured size.
pub fn mock_frame(frame_id: u64, timestamp: SystemTime, config: &CameraConfig) -> (f: FrameData)
    ensures
        f.id == frame_id,
        f.timestamp == timestamp,
        f.data@ == mock_frame_bytes(frame_id),
        f.width == config.resolution.0,
        f.height == config.resolution.1,
        f.format == FrameFormat::Mjpeg,
{
    FrameData::new(
        frame_id,
        timestamp,
        mock_frame_data(frame_id),
        config.resolution.0,
        config.resolution.1,
        FrameFormat::Mjpeg,
    )
}

} // verus!
