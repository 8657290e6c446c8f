//! Encoding a capture into a video with an external `ffmpeg`: the command
//! line, and the pacing of the frames written to its input so that the
//! video keeps the frames' own timing.
use vstd::prelude::*;

verus! {

/// The arguments of the encoder: MJPEG from standard input with wall-clock
/// timestamps, variable frame rate, hardware H.264 at 10 Mbit/s, a key frame
/// every 60 frames, YUV 4:2:0, and the index at the front of the file.
pub open spec fn ffmpeg_args(video_path: Seq<char>) -> Seq<Seq<char>> {
    seq![
        "-hide_banner"@, "-loglevel"@, "error"@, "-y"@, "-f"@, "mjpeg"@,
        "-use_wallclock_as_timestamps"@, "1"@, "-i"@, "pipe:0"@, "-vsync"@, "vfr"@,
        "-c:v"@, "h264_v4l2m2m"@, "-b:v"@, "10M"@, "-maxrate"@, "10M"@,
        "-bufsize"@, "10M"@, "-g"@, "60"@, "-pix_fmt"@, "yuv420p"@,
        "-movflags"@, "+faststart"@, video_path,
    ]
}

/// The views of a list of strings.
pub open spec fn string_views(v: Seq<String>) -> Seq<Seq<char>> {
    v.map_values(|s: String| s@)
}

/// The arguments of the encoder writing to `video_path`.
pub fn ffmpeg_command_args(video_path: &str) -> (r: Vec<String>)
    ensures
        string_views(r@) == ffmpeg_args(video_path@),
{
    let mut r: Vec<String> = Vec::new();
    r.push("-hide_banner".to_owned());
    r.push("-loglevel".to_owned());
    r.push("error".to_owned());
    r.push("-y".to_owned());
    r.push("-f".to_owned());
    r.push("mjpeg".to_owned());
    r.push("-use_wallclock_as_timestamps".to_owned());
    r.push("1".to_owned());
    r.push("-i".to_owned());
    r.push("pipe:0".to_owned());
    r.push("-vsync".to_owned());
    r.push("vfr".to_owned());
    r.push("-c:v".to_owned());
    r.push("h264_v4l2m2m".to_owned());
    r.push("-b:v".to_owned());
    r.push("10M".to_owned());
    r.push("-maxrate".to_owned());
    r.push("10M".to_owned());
    r.push("-bufsize".to_owned());
    r.push("10M".to_owned());
    r.push("-g".to_owned());
    r.push("60".to_owned());
    r.push("-pix_fmt".to_owned());
    r.push("yuv420p".to_owned());
    r.push("-movflags".to_owned());
    r.push("+faststart".to_owned());
    r.push(video_path.to_owned());
    assert(string_views(r@) =~= ffmpeg_args(video_path@));
    r
}

/// What to do before writing a frame to the encoder.
#[derive(Debug, Clone, Copy, PartialEq, Eq, Structural)]
pub struct FrameStep {
    /// Wait this many nanoseconds first: the time since the previous frame,
    /// when the frame is later than it.
    pub wait_nanos: Option<u64>,
    /// Report progress: every thirtieth frame after the first.
    pub report_progress: bool,
}

/// How far an encoding has come.
#[derive(Debug, Clone, Copy, PartialEq, Eq, Structural)]
pub struct EncodeProgress {
    /// Frames written so far.
    pub frames_written: u32,
    /// The timestamp, in nanoseconds since the epoch, of the last frame written.
    pub last_frame_nanos: Option<u64>,
}

/// The wait before a frame stamped `nanos`, after a frame stamped `previous`.
pub open spec fn spec_wait(previous: Option<u64>, nanos: u64) -> Option<u64> {
    match previous {
        Some(p) => if nanos > p { Some((nanos - p) as u64) } else { None },
        None => None,
    }
}

impl EncodeProgress {
    /// Nothing written yet.
    pub fn new() -> (p: Self)
        ensures
            p.frames_written == 0,
            p.last_frame_nanos is None,
    {
        EncodeProgress { frames_written: 0, last_frame_nanos: None }
    }

    /// The step for the next frame, stamped `nanos`, and the progress after
    /// writing it.
    pub fn next_frame(&mut self, nanos: u64) -> (step: FrameStep)
        requires
            old(self).frames_written < u32::MAX,
        ensures
            step.wait_nanos == spec_wait(old(self).last_frame_nanos, nanos),
            step.report_progress == (old(self).frames_written > 0 && old(self).frames_written % 30 == 0),
            final(self).frames_written == old(self).frames_written + 1,
            final(self).last_frame_nanos == Some(nanos),
    {
        let wait_nanos = match self.last_frame_nanos {
            Some(p) => if nanos > p { Some(nanos - p) } else { None },
            None => None,
        };
        let report_progress = self.frames_written > 0 && self.frames_written % 30 == 0;
        self.frames_written = self.frames_written + 1;
        self.last_frame_nanos = Some(nanos);
        FrameStep { wait_nanos, report_progress }
    }
}

} // verus!
