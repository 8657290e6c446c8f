//! Decisions of the WAL export tool: what to produce, the name of an event,
//! the presentation time and duration of each frame in an encoded video, and
//! the span of frames in a WAL.
use vstd::prelude::*;

verus! {

/// What to produce from a WAL.
#[derive(Debug, Clone, Copy, PartialEq, Eq, Structural)]
pub struct ExportActions {
    pub images: bool,
    pub video: bool,
    pub metadata: bool,
}

impl ExportActions {
    /// The requested outputs; everything when nothing is requested.
    pub fn from_flags(images: bool, video: bool, metadata: bool) -> (a: Self)
        ensures
            (images || video || metadata) ==> a == (ExportActions { images, video, metadata }),
            !(images || video || metadata) ==> a == (ExportActions { images: true, video: true, metadata: true }),
    {
        if images || video || metadata {
            ExportActions { images, video, metadata }
        } else {
            ExportActions { images: true, video: true, metadata: true }
        }
    }
}

/// The event id of a WAL file: its file stem, or "unknown" without one.
pub fn event_id_from_stem(stem: Option<&str>) -> (id: String)
    ensures
        match stem {
            Some(s) => id@ == s@,
            None => id@ == "unknown"@,
        },
{
    match stem {
        Some(s) => s.to_owned(),
        None => "unknown".to_owned(),
    }
}

/// The duration given to the last frame of a video: a frame at 30 fps, in
/// nanoseconds.
pub const LAST_FRAME_DURATION_NS: u64 = 33_333_333;

/// `a - b`, or 0 when `b` is larger.
pub open spec fn saturating_diff(a: u64, b: u64) -> u64 {
    if a >= b {
        (a - b) as u64
    } else {
        0
    }
}

/// The presentation time and duration of a frame stamped `frame_ns` in a
/// video that starts at `base_ns`: the time since the start, and the time
/// until the next frame (a frame at 30 fps for the last one); both 0 rather
/// than negative.
pub open spec fn spec_buffer_timing(base_ns: u64, frame_ns: u64, next_ns: Option<u64>) -> (u64, u64) {
    (
        saturating_diff(frame_ns, base_ns),
        match next_ns {
            Some(n) => saturating_diff(n, frame_ns),
            None => LAST_FRAME_DURATION_NS,
        },
    )
}

/// The presentation time and duration of one frame.
pub fn buffer_timing(base_ns: u64, frame_ns: u64, next_ns: Option<u64>) -> (t: (u64, u64))
    ensures
        t == spec_buffer_timing(base_ns, frame_ns, next_ns),
{
    let pts = if frame_ns >= base_ns {
        frame_ns - base_ns
    } else {
        0
    };
    let duration = match next_ns {
        Some(n) => if n >= frame_ns {
            n - frame_ns
        } else {
            0
        },
        None => LAST_FRAME_DURATION_NS,
    };
    (pts, duration)
}

/// The timing of frame `i` of a video whose frames are stamped `ts`: the
/// video starts at the first frame.
pub open spec fn frame_timing_at(ts: Seq<u64>, i: int) -> (u64, u64) {
    spec_buffer_timing(
        ts[0],
        ts[i],
        if i + 1 < ts.len() {
            Some(ts[i + 1])
        } else {
            None
        },
    )
}

/// The presentation time and duration of every frame of a video whose
/// frames are stamped `timestamps` (nanoseconds since the epoch).
pub fn buffer_timings(timestamps: &Vec<u64>) -> (v: Vec<(u64, u64)>)
    ensures
        v@.len() == timestamps@.len(),
        forall|i: int| 0 <= i < v@.len() ==> #[trigger] v@[i] == frame_timing_at(timestamps@, i),
{
    let n = timestamps.len();
    let mut v: Vec<(u64, u64)> = Vec::new();
    if n == 0 {
        return v;
    }
    let base = timestamps[0];
    let mut i: usize = 0;
    while i < n
        invariant
            n == timestamps@.len(),
            n > 0,
            base == timestamps@[0],
            i <= n,
            v@.len() == i,
            forall|j: int| 0 <= j < i ==> #[trigger] v@[j] == frame_timing_at(timestamps@, j),
        decreases n - i,
    {
        let next = if i + 1 < n {
            Some(timestamps[i + 1])
        } else {
            None
        };
        v.push(buffer_timing(base, timestamps[i], next));
        i = i + 1;
    }
    v
}

/// The number of frames of a WAL and the stamps of its first and last frame.
pub fn frame_span(timestamps: &Vec<u64>) -> (r: (usize, Option<u64>, Option<u64>))
    ensures
        r.0 == timestamps@.len(),
        timestamps@.len() == 0 ==> r.1 is None && r.2 is None,
        timestamps@.len() > 0 ==> r.1 == Some(timestamps@[0]) && r.2 == Some(timestamps@.last()),
{
    let n = timestamps.len();
    if n == 0 {
        (0, None, None)
    } else {
        (n, Some(timestamps[0]), Some(timestamps[n - 1]))
    }
}

/// Every frame but the last lasts until the next one starts: the start of a
/// frame plus its duration is the start of the next, when stamps do not go
/// back in time.
pub proof fn law_frames_are_contiguous(ts: Seq<u64>, i: int)
    requires
        0 <= i,
        i + 1 < ts.len(),
        forall|a: int, b: int| 0 <= a <= b < ts.len() ==> ts[a] <= ts[b],
    ensures
        frame_timing_at(ts, i).0 + frame_timing_at(ts, i).1 == frame_timing_at(ts, i + 1).0,
{
    assert(ts[0] <= ts[i]);
    assert(ts[i] <= ts[i + 1]);
}


/// A video starts at its first frame, each frame is shown at its time
/// after the start and until the next frame, and the last frame for a
/// thirtieth of a second.
pub proof fn law_frame_timing(ts: Seq<u64>, i: int)
    requires
        0 <= i < ts.len(),
        ts[0] <= ts[i],
    ensures
        frame_timing_at(ts, i).0 == ts[i] - ts[0],
        i + 1 < ts.len() && ts[i] <= ts[i + 1] ==> frame_timing_at(ts, i).1 == ts[i + 1] - ts[i],
        i + 1 == ts.len() ==> frame_timing_at(ts, i).1 == 33_333_333,
        frame_timing_at(ts, 0).0 == 0,
{
}

} // verus!
