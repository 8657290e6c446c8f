//! Decisions of motion-triggered capture: whether a motion extends a
//! running capture or starts a new one, the preroll window, when the
//! postroll is over, what a finished capture produces, and the size of the
//! frame ring buffer.
//!
//! Times are nanoseconds since the Unix epoch.
use crate::config::{CaptureConfig, EventConfig, Rotation as ConfigRotation};
use crate::error::DoorcamError;
use crate::frame::Rotation as FrameRotation;
use vstd::prelude::*;

verus! {

/// Nanoseconds in a second.
pub const NANOS_PER_SECOND: u64 = 1_000_000_000;

/// `a - b`, or 0 when `b` is later (a clock that steps back counts as no
/// time passed).
pub open spec fn time_since(a: u64, b: u64) -> nat {
    if a >= b {
        (a - b) as nat
    } else {
        0
    }
}

/// Seconds as nanoseconds.
pub open spec fn seconds_nanos(s: u32) -> nat {
    s as nat * NANOS_PER_SECOND as nat
}

fn nanos_of_seconds(s: u32) -> (n: u64)
    ensures
        n == seconds_nanos(s),
{
    assert(s as nat * NANOS_PER_SECOND as nat <= u32::MAX as nat * 1_000_000_000) by (nonlinear_arith)
        requires
            s <= u32::MAX,
    ;
    (s as u64) * NANOS_PER_SECOND
}

fn elapsed_nanos(a: u64, b: u64) -> (n: u64)
    ensures
        n == time_since(a, b),
{
    if a >= b {
        a - b
    } else {
        0
    }
}

/// Whether a motion at `motion` falls within the postroll of a capture whose
/// latest motion was at `latest`.
pub open spec fn within_postroll(latest: u64, motion: u64, postroll_seconds: u32) -> bool {
    time_since(motion, latest) < seconds_nanos(postroll_seconds)
}

/// The capture that a motion extends: the first active capture whose latest
/// motion is less than a postroll ago; `None` starts a new capture.
pub fn capture_to_extend(latest_motions: &Vec<u64>, motion: u64, postroll_seconds: u32) -> (r: Option<usize>)
    ensures
        match r {
            Some(i) => i < latest_motions@.len() && within_postroll(latest_motions@[i as int], motion, postroll_seconds)
                && forall|j: int| 0 <= j < i ==> !within_postroll(#[trigger] latest_motions@[j], motion, postroll_seconds),
            None => forall|j: int| 0 <= j < latest_motions@.len() ==> !within_postroll(#[trigger] latest_motions@[j], motion, postroll_seconds),
        },
{
    let postroll = nanos_of_seconds(postroll_seconds);
    let mut i: usize = 0;
    while i < latest_motions.len()
        invariant
            i <= latest_motions@.len(),
            postroll == seconds_nanos(postroll_seconds),
            forall|j: int| 0 <= j < i ==> !within_postroll(#[trigger] latest_motions@[j], motion, postroll_seconds),
        decreases latest_motions@.len() - i,
    {
        if elapsed_nanos(motion, latest_motions[i]) < postroll {
            return Some(i);
        }
        i = i + 1;
    }
    None
}

/// The start of the preroll window: `preroll_seconds` before the first
/// motion (not before the epoch).
pub fn preroll_start(initial_motion: u64, preroll_seconds: u32) -> (start: u64)
    ensures
        start == (if initial_motion >= seconds_nanos(preroll_seconds) {
            initial_motion - seconds_nanos(preroll_seconds)
        } else {
            0
        }),
{
    let p = nanos_of_seconds(preroll_seconds);
    if initial_motion >= p {
        initial_motion - p
    } else {
        0
    }
}

/// Whether the postroll is over: a full postroll has passed both since the
/// latest motion and since the postroll started.
pub open spec fn spec_postroll_complete(now: u64, latest_motion: u64, postroll_start: u64, postroll_seconds: u32) -> bool {
    &&& time_since(now, latest_motion) >= seconds_nanos(postroll_seconds)
    &&& time_since(now, postroll_start) >= seconds_nanos(postroll_seconds)
}

/// Whether a capture's postroll is over.
pub fn postroll_complete(now: u64, latest_motion: u64, postroll_start: u64, postroll_seconds: u32) -> (b: bool)
    ensures
        b == spec_postroll_complete(now, latest_motion, postroll_start, postroll_seconds),
{
    let p = nanos_of_seconds(postroll_seconds);
    elapsed_nanos(now, latest_motion) >= p && elapsed_nanos(now, postroll_start) >= p
}

/// What a finished capture produces.
#[derive(Debug, Clone, Copy, PartialEq, Eq, Structural)]
pub struct CaptureOutcome {
    /// Frames written from the ring buffer before the motion.
    pub preroll_frame_count: usize,
    /// Frames written after the motion.
    pub postroll_frame_count: usize,
    /// All frames written.
    pub total_frame_count: usize,
    /// Whether a video is queued from the WAL; otherwise the WAL is deleted.
    pub queue_video: bool,
}

/// The outcome of a capture that wrote `frame_count` frames, of which
/// `preroll_count` were preroll frames: a video is queued when encoding is
/// enabled and some frame was written.
pub fn finish_capture(frame_count: u32, preroll_count: usize, video_encoding: bool) -> (o: CaptureOutcome)
    requires
        preroll_count <= frame_count,
    ensures
        o.preroll_frame_count == preroll_count,
        o.total_frame_count == frame_count,
        o.postroll_frame_count == frame_count - preroll_count,
        o.queue_video == (video_encoding && frame_count > 0),
{
    let total = frame_count as usize;
    CaptureOutcome {
        preroll_frame_count: preroll_count,
        postroll_frame_count: total - preroll_count,
        total_frame_count: total,
        queue_video: video_encoding && total > 0,
    }
}

/// Statistics about active captures.
#[derive(Debug, Clone, Copy, PartialEq, Eq, Structural)]
pub struct CaptureStats {
    /// Captures in progress.
    pub active_captures: usize,
    /// Frames held by active captures (frames go straight to the WAL, so 0).
    pub total_active_frames: usize,
}

/// The statistics for a number of active captures.
pub fn capture_stats(active_captures: usize) -> (s: CaptureStats)
    ensures
        s.active_captures == active_captures,
        s.total_active_frames == 0,
{
    CaptureStats { active_captures, total_active_frames: 0 }
}

/// The ring buffer capacity for a camera fps and preroll: twice the frames
/// of a preroll, and at least one.
pub open spec fn spec_ring_buffer_capacity(camera_fps: u32, preroll_seconds: u32) -> nat {
    let estimated = camera_fps as nat * preroll_seconds as nat * 2;
    if estimated == 0 {
        1
    } else {
        estimated
    }
}

/// A ring buffer capacity for a camera fps and preroll, with a safety factor
/// of two against bursty load.
pub fn calculate_ring_buffer_capacity(camera_fps: u32, preroll_seconds: u32) -> (n: usize)
    requires
        camera_fps as nat * preroll_seconds as nat * 2 <= u64::MAX,
    ensures
        n == spec_ring_buffer_capacity(camera_fps, preroll_seconds) as usize,
{
    let product = (camera_fps as u64) * (preroll_seconds as u64) * 2;
    let estimated = if product > 1 { product } else { 1 };
    #[verifier::truncate]
    (estimated as usize)
}

/// The first rule of capture that a configuration breaks: a preroll and a
/// postroll of at least a second, and a capture path.
pub open spec fn spec_capture_violation(event: EventConfig, capture: CaptureConfig) -> Option<Seq<char>> {
    if event.preroll_seconds == 0 {
        Some("Preroll seconds must be greater than 0"@)
    } else if event.postroll_seconds == 0 {
        Some("Postroll seconds must be greater than 0"@)
    } else if capture.path@.len() == 0 {
        Some("Capture path cannot be empty"@)
    } else {
        None
    }
}

/// Check the capture settings; the error is a component error of
/// "video_capture_integration" naming the first rule broken.
pub fn validate_capture_config(event: &EventConfig, capture: &CaptureConfig) -> (r: Result<(), DoorcamError>)
    ensures
        match spec_capture_violation(*event, *capture) {
            None => r is Ok,
            Some(m) => r matches Err(DoorcamError::Component { component, message }) && component@
                == "video_capture_integration"@ && message@ == m,
        },
{
    if event.preroll_seconds == 0 {
        return Err(DoorcamError::component("video_capture_integration", "Preroll seconds must be greater than 0"));
    }
    if event.postroll_seconds == 0 {
        return Err(DoorcamError::component("video_capture_integration", "Postroll seconds must be greater than 0"));
    }
    if capture.path.as_str().unicode_len() == 0 {
        return Err(DoorcamError::component("video_capture_integration", "Capture path cannot be empty"));
    }
    Ok(())
}

/// The frame rotation of a configured rotation.
pub open spec fn spec_frame_rotation(r: ConfigRotation) -> FrameRotation {
    match r {
        ConfigRotation::Rotate90 => FrameRotation::Rotate90,
        ConfigRotation::Rotate180 => FrameRotation::Rotate180,
        ConfigRotation::Rotate270 => FrameRotation::Rotate270,
    }
}

/// The frame rotation of a configured rotation, if any.
pub fn map_capture_rotation(rotation: Option<&ConfigRotation>) -> (r: Option<FrameRotation>)
    ensures
        match rotation {
            Some(c) => r == Some(spec_frame_rotation(*c)),
            None => r is None,
        },
{
    match rotation {
        Some(ConfigRotation::Rotate90) => Some(FrameRotation::Rotate90),
        Some(ConfigRotation::Rotate180) => Some(FrameRotation::Rotate180),
        Some(ConfigRotation::Rotate270) => Some(FrameRotation::Rotate270),
        None => None,
    }
}

/// A capture in progress: its event id, the motion that started it and
/// the latest motion seen during it (nanoseconds since the epoch).
#[derive(Debug)]
pub struct ActiveCapture {
    pub event_id: String,
    pub initial_motion: u64,
    pub latest_motion: u64,
}

/// A capture as plain values: event id, first motion, latest motion.
pub type CaptureView = (Seq<char>, u64, u64);

/// The plain values of a capture.
pub open spec fn capture_view(c: ActiveCapture) -> CaptureView {
    (c.event_id@, c.initial_motion, c.latest_motion)
}

/// The plain values of a list of captures.
pub open spec fn captures_view(v: Seq<ActiveCapture>) -> Seq<CaptureView> {
    v.map_values(|c: ActiveCapture| capture_view(c))
}

/// Whether a capture is not the one with event id `id`.
pub open spec fn other_than(id: Seq<char>) -> spec_fn(CaptureView) -> bool {
    |c: CaptureView| c.0 != id
}

/// What a motion did to the captures in progress.
#[derive(Debug, Clone, Copy, PartialEq, Eq, Structural)]
pub enum MotionResponse {
    /// It fell within the postroll of the capture at this position, whose
    /// latest motion it became.
    Extended { index: usize },
    /// It started a new capture, added last.
    Started,
}

/// The captures in progress, in the order they started.
pub struct ActiveCaptures {
    captures: Vec<ActiveCapture>,
}

impl ActiveCaptures {
    /// The captures as plain values.
    pub closed spec fn view(&self) -> Seq<CaptureView> {
        captures_view(self.captures@)
    }

    /// No capture in progress.
    pub fn new() -> (a: Self)
        ensures
            a.view() == Seq::<CaptureView>::empty(),
    {
        let a = ActiveCaptures { captures: Vec::new() };
        assert(a.view() =~= Seq::<CaptureView>::empty());
        a
    }

    /// The number of captures in progress.
    pub fn len(&self) -> (n: usize)
        ensures
            n == self.view().len(),
    {
        self.captures.len()
    }

    /// The event id of the capture at position `i`.
    pub fn event_id_at(&self, i: usize) -> (id: &String)
        requires
            i < self.view().len(),
        ensures
            id@ == self.view()[i as int].0,
    {
        &self.captures[i].event_id
    }

    /// The latest motion of the first capture with event id `event_id`;
    /// `None` when no capture in progress has it.
    pub fn latest_motion_of(&self, event_id: &str) -> (r: Option<u64>)
        ensures
            match r {
                Some(t) => exists|i: int|
                    0 <= i < self.view().len() && (#[trigger] self.view()[i]).0 == event_id@ && self.view()[i].2 == t
                        && forall|j: int| 0 <= j < i ==> (#[trigger] self.view()[j]).0 != event_id@,
                None => forall|i: int| 0 <= i < self.view().len() ==> (#[trigger] self.view()[i]).0 != event_id@,
            },
    {
        let id = event_id.to_owned();
        let n = self.captures.len();
        let mut i: usize = 0;
        while i < n
            invariant
                n == self.captures@.len(),
                i <= n,
                id@ == event_id@,
                forall|j: int| 0 <= j < i ==> (#[trigger] self.view()[j]).0 != event_id@,
            decreases n - i,
        {
            assert(self.view()[i as int] == capture_view(self.captures@[i as int]));
            if self.captures[i].event_id == id {
                return Some(self.captures[i].latest_motion);
            }
            i = i + 1;
        }
        None
    }

    /// Take a motion at `motion`: the first capture whose latest motion is
    /// less than a postroll ago is extended (the motion becomes its latest);
    /// with none, a new capture `new_event_id` starts at the motion.
    pub fn on_motion(&mut self, motion: u64, postroll_seconds: u32, new_event_id: String) -> (r: MotionResponse)
        ensures
            match r {
                MotionResponse::Extended { index } => index < old(self).view().len() && within_postroll(
                    old(self).view()[index as int].2,
                    motion,
                    postroll_seconds,
                ) && (forall|j: int|
                    0 <= j < index ==> !within_postroll(#[trigger] old(self).view()[j].2, motion, postroll_seconds))
                    && final(self).view() == old(self).view().update(
                    index as int,
                    (old(self).view()[index as int].0, old(self).view()[index as int].1, motion),
                ),
                MotionResponse::Started => (forall|j: int|
                    0 <= j < old(self).view().len() ==> !within_postroll(
                        #[trigger] old(self).view()[j].2,
                        motion,
                        postroll_seconds,
                    )) && final(self).view() == old(self).view().push((new_event_id@, motion, motion)),
            },
    {
        let postroll = nanos_of_seconds(postroll_seconds);
        let n = self.captures.len();
        let mut i: usize = 0;
        while i < n
            invariant
                n == self.captures@.len(),
                i <= n,
                postroll == seconds_nanos(postroll_seconds),
                self.captures@ == old(self).captures@,
                forall|j: int| 0 <= j < i ==> !within_postroll(#[trigger] self.view()[j].2, motion, postroll_seconds),
            decreases n - i,
        {
            assert(self.view()[i as int] == capture_view(self.captures@[i as int]));
            if elapsed_nanos(motion, self.captures[i].latest_motion) < postroll {
                assert(within_postroll(old(self).view()[i as int].2, motion, postroll_seconds));
                let ghost before = self.captures@;
                let mut c = self.captures.remove(i);
                c.latest_motion = motion;
                self.captures.insert(i, c);
                assert(self.captures@ =~= before.update(i as int, c));
                assert(self.view() =~= old(self).view().update(
                    i as int,
                    (old(self).view()[i as int].0, old(self).view()[i as int].1, motion),
                ));
                return MotionResponse::Extended { index: i };
            }
            i = i + 1;
        }
        assert(self.view() == old(self).view());
        let ghost id = new_event_id@;
        let c = ActiveCapture { event_id: new_event_id, initial_motion: motion, latest_motion: motion };
        self.captures.push(c);
        assert(self.view() =~= old(self).view().push((id, motion, motion)));
        MotionResponse::Started
    }

    /// A capture finished: remove every capture with its event id; the
    /// others stay, in order.
    pub fn finish(&mut self, event_id: &str)
        ensures
            final(self).view() == old(self).view().filter(other_than(event_id@)),
    {
        let id = event_id.to_owned();
        let mut rest: Vec<ActiveCapture> = Vec::new();
        std::mem::swap(&mut rest, &mut self.captures);
        let ghost orig = rest@;
        let n = rest.len();
        let mut i: usize = 0;
        assert(captures_view(orig).take(0) =~= Seq::<CaptureView>::empty());
        assert(self.view() =~= Seq::<CaptureView>::empty());
        reveal(Seq::filter);
        while i < n
            invariant
                n == orig.len(),
                i <= n,
                id@ == event_id@,
                rest@ == orig.skip(i as int),
                self.view() == captures_view(orig).take(i as int).filter(other_than(event_id@)),
            decreases n - i,
        {
            let ghost kept_before = self.view();
            let c = rest.remove(0);
            assert(capture_view(c) == captures_view(orig)[i as int]);
            assert(captures_view(orig).take(i + 1) =~= captures_view(orig).take(i as int).push(capture_view(c)));
            proof {
                captures_view(orig).take(i as int).lemma_filter_push(capture_view(c), other_than(event_id@));
            }
            if c.event_id == id {
                assert(!other_than(event_id@)(capture_view(c)));
            } else {
                let ghost caps = self.captures@;
                self.captures.push(c);
                assert(self.view() =~= kept_before.push(capture_view(c)));
            }
            assert(rest@ =~= orig.skip(i + 1));
            i = i + 1;
        }
        assert(captures_view(orig).take(n as int) =~= captures_view(orig));
    }
}


/// A capture's postroll is over exactly when a full postroll has passed
/// since the latest motion and a full postroll has passed since the
/// postroll began: a motion seen less than `postroll_seconds` ago keeps the
/// capture recording. (A zero postroll is always over.)
pub proof fn law_postroll_waits_for_latest_motion(now: u64, latest_motion: u64, postroll_start: u64, postroll_seconds: u32)
    ensures
        spec_postroll_complete(now, latest_motion, postroll_start, postroll_seconds) <==> ((postroll_seconds == 0
            || (now as int) - (latest_motion as int) >= (postroll_seconds as int) * 1_000_000_000) && (
        postroll_seconds == 0 || (now as int) - (postroll_start as int) >= (postroll_seconds as int)
            * 1_000_000_000)),
        ((latest_motion as int) <= (now as int) && (now as int) - (latest_motion as int) < (postroll_seconds as int)
            * 1_000_000_000) ==> !spec_postroll_complete(now, latest_motion, postroll_start, postroll_seconds),
        ((postroll_start as int) <= (now as int) && (now as int) - (postroll_start as int) < (postroll_seconds
            as int) * 1_000_000_000) ==> !spec_postroll_complete(now, latest_motion, postroll_start, postroll_seconds),
{
}


/// A motion extends a capture exactly when it comes less than a postroll
/// after that capture's latest motion (or before it, when the clock steps
/// back); a motion a full postroll or more after it does not.
pub proof fn law_motion_within_postroll(latest: u64, motion: u64, postroll_seconds: u32)
    ensures
        within_postroll(latest, motion, postroll_seconds) <==> ((postroll_seconds > 0 && motion <= latest) || (
        motion > latest && (motion as int) - (latest as int) < (postroll_seconds as int) * 1_000_000_000)),
{
}

/// The ring buffer holds twice the frames of a preroll, and at least one.
pub proof fn law_ring_buffer_capacity(camera_fps: u32, preroll_seconds: u32)
    ensures
        spec_ring_buffer_capacity(camera_fps, preroll_seconds) >= 1,
        spec_ring_buffer_capacity(camera_fps, preroll_seconds) >= 2 * (camera_fps as nat) * (preroll_seconds as nat),
        camera_fps > 0 && preroll_seconds > 0 ==> spec_ring_buffer_capacity(camera_fps, preroll_seconds) == 2 * (
        camera_fps as nat) * (preroll_seconds as nat),
{
    assert((camera_fps as nat) * (preroll_seconds as nat) * 2 == 2 * (camera_fps as nat) * (preroll_seconds as nat))
        by (nonlinear_arith);
    if camera_fps > 0 && preroll_seconds > 0 {
        assert((camera_fps as nat) * (preroll_seconds as nat) >= 1) by (nonlinear_arith)
            requires
                camera_fps > 0,
                preroll_seconds > 0,
        ;
    }
}

/// Capture settings are accepted exactly when the preroll and postroll are
/// at least a second and the capture path is not empty.
pub proof fn law_capture_settings(event: EventConfig, capture: CaptureConfig)
    ensures
        spec_capture_violation(event, capture) is None <==> (event.preroll_seconds > 0 && event.postroll_seconds > 0
            && capture.path@.len() > 0),
{
}

} // verus!
