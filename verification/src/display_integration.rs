//! Statistics of the display integration with activation tracking.
use crate::opaque::{duration_from_secs, duration_of_secs, system_time_now};
use std::time::{Duration, SystemTime};
use vstd::prelude::*;

verus! {

/// Display statistics and monitoring.
#[derive(Debug, Clone)]
pub struct DisplayStats {
    pub frames_rendered: u64,
    pub render_errors: u64,
    pub touch_events: u64,
    pub activation_count: u64,
    pub total_active_time: Duration,
    pub last_activation: Option<SystemTime>,
    pub last_render: Option<SystemTime>,
}

/// All counters zero, no active time and no times recorded.
pub open spec fn is_zero(s: DisplayStats) -> bool {
    &&& s.frames_rendered == 0
    &&& s.render_errors == 0
    &&& s.touch_events == 0
    &&& s.activation_count == 0
    &&& s.total_active_time == duration_of_secs(0)
    &&& s.last_activation is None
    &&& s.last_render is None
}

impl Default for DisplayStats {
    /// Zero counters and a zero active time.
    fn default() -> (s: Self)
        ensures
            is_zero(s),
    {
        DisplayStats {
            frames_rendered: 0,
            render_errors: 0,
            touch_events: 0,
            activation_count: 0,
            total_active_time: duration_from_secs(0),
            last_activation: None,
            last_render: None,
        }
    }
}

impl DisplayStats {
    /// Count a rendered frame and stamp the time.
    pub fn record_frame_render(&mut self)
        requires
            old(self).frames_rendered < u64::MAX,
        ensures
            final(self).frames_rendered == old(self).frames_rendered + 1,
            final(self).render_errors == old(self).render_errors,
            final(self).touch_events == old(self).touch_events,
            final(self).activation_count == old(self).activation_count,
            final(self).last_activation == old(self).last_activation,
            final(self).total_active_time == old(self).total_active_time,
            final(self).last_render is Some,
    {
        self.frames_rendered = self.frames_rendered + 1;
        self.last_render = Some(system_time_now());
    }

    /// Count a render error.
    pub fn record_render_error(&mut self)
        requires
            old(self).render_errors < u64::MAX,
        ensures
            final(self).render_errors == old(self).render_errors + 1,
            final(self).frames_rendered == old(self).frames_rendered,
            final(self).touch_events == old(self).touch_events,
            final(self).activation_count == old(self).activation_count,
            final(self).last_activation == old(self).last_activation,
            final(self).last_render == old(self).last_render,
            final(self).total_active_time == old(self).total_active_time,
    {
        self.render_errors = self.render_errors + 1;
    }

    /// Count a touch event.
    pub fn record_touch_event(&mut self)
        requires
            old(self).touch_events < u64::MAX,
        ensures
            final(self).touch_events == old(self).touch_events + 1,
            final(self).frames_rendered == old(self).frames_rendered,
            final(self).render_errors == old(self).render_errors,
            final(self).activation_count == old(self).activation_count,
            final(self).last_activation == old(self).last_activation,
            final(self).last_render == old(self).last_render,
            final(self).total_active_time == old(self).total_active_time,
    {
        self.touch_events = self.touch_events + 1;
    }

    /// Count an activation and stamp the time.
    pub fn record_activation(&mut self)
        requires
            old(self).activation_count < u64::MAX,
        ensures
            final(self).activation_count == old(self).activation_count + 1,
            final(self).frames_rendered == old(self).frames_rendered,
            final(self).render_errors == old(self).render_errors,
            final(self).touch_events == old(self).touch_events,
            final(self).last_render == old(self).last_render,
            final(self).total_active_time == old(self).total_active_time,
            final(self).last_activation is Some,
    {
        self.activation_count = self.activation_count + 1;
        self.last_activation = Some(system_time_now());
    }

    /// Zero all statistics.
    pub fn reset(&mut self)
        ensures
            is_zero(*final(self)),
    {
        *self = Self::default();
    }
}

} // verus!
