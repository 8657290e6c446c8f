//! Counters of the display integration.
use crate::opaque::system_time_now;
use std::time::SystemTime;
use vstd::prelude::*;

verus! {

/// Display integration statistics.
#[derive(Debug, Clone)]
pub struct DisplayStats {
    pub frames_rendered: u64,
    pub render_errors: u64,
    pub touch_events: u64,
    pub activations: u64,
    pub last_frame_time: Option<SystemTime>,
}

/// All counters zero and no frame time.
pub open spec fn is_zero(s: DisplayStats) -> bool {
    &&& s.frames_rendered == 0
    &&& s.render_errors == 0
    &&& s.touch_events == 0
    &&& s.activations == 0
    &&& s.last_frame_time is None
}

impl Default for DisplayStats {
    fn default() -> (s: Self)
        ensures
            is_zero(s),
    {
        DisplayStats {
            frames_rendered: 0,
            render_errors: 0,
            touch_events: 0,
            activations: 0,
            last_frame_time: None,
        }
    }
}

impl DisplayStats {
    /// Count a rendered frame and stamp the time.
    pub fn record_frame_render(&mut self)
        requires
            old(self).frames_rendered < u64::MAX,
        ensures
            final(self).frames_rendered == old(self).frames_rendered + 1,
            final(self).render_errors == old(self).render_errors,
            final(self).touch_events == old(self).touch_events,
            final(self).activations == old(self).activations,
            final(self).last_frame_time is Some,
    {
        self.frames_rendered = self.frames_rendered + 1;
        self.last_frame_time = Some(system_time_now());
    }

    /// Count a render error and stamp the time.
    pub fn record_render_error(&mut self)
        requires
            old(self).render_errors < u64::MAX,
        ensures
            final(self).render_errors == old(self).render_errors + 1,
            final(self).frames_rendered == old(self).frames_rendered,
            final(self).touch_events == old(self).touch_events,
            final(self).activations == old(self).activations,
            final(self).last_frame_time is Some,
    {
        self.render_errors = self.render_errors + 1;
        self.last_frame_time = Some(system_time_now());
    }

    /// Count a touch event.
    pub fn record_touch_event(&mut self)
        requires
            old(self).touch_events < u64::MAX,
        ensures
            final(self).touch_events == old(self).touch_events + 1,
            final(self).frames_rendered == old(self).frames_rendered,
            final(self).render_errors == old(self).render_errors,
            final(self).activations == old(self).activations,
            final(self).last_frame_time == old(self).last_frame_time,
    {
        self.touch_events = self.touch_events + 1;
    }

    /// Count a display activation.
    pub fn record_activation(&mut self)
        requires
            old(self).activations < u64::MAX,
        ensures
            final(self).activations == old(self).activations + 1,
            final(self).frames_rendered == old(self).frames_rendered,
            final(self).render_errors == old(self).render_errors,
            final(self).touch_events == old(self).touch_events,
            final(self).last_frame_time == old(self).last_frame_time,
    {
        self.activations = self.activations + 1;
    }

    /// Zero all counters.
    pub fn reset(&mut self)
        ensures
            is_zero(*final(self)),
    {
        *self = Self::default();
    }
}

} // verus!
