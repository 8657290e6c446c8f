//! Health of the camera and ring buffer integration: its status report and
//! the assessment of its health from what was observed.
use crate::text::{decimal, push_decimal};
use vstd::prelude::*;

verus! {

/// Status and statistics of the camera and ring buffer integration.
#[derive(Debug, Clone, Copy, PartialEq, Eq, Structural)]
pub struct IntegrationStatus {
    pub camera_capturing: bool,
    pub camera_frame_count: u64,
    pub ring_buffer_capacity: usize,
    pub ring_buffer_frame_count: usize,
    pub ring_buffer_utilization: u64,
    pub frames_pushed: u64,
    pub frames_retrieved: u64,
    pub buffer_overruns: u64,
}

/// Overall health of the integration.
#[derive(Debug, Clone, Copy, PartialEq, Eq, Structural)]
pub enum HealthStatus {
    Healthy,
    Warning,
    Unhealthy,
}

/// Result of a health check: the status, the problems found and the
/// warnings raised.
#[derive(Debug, Clone)]
pub struct HealthCheckResult {
    pub status: HealthStatus,
    pub issues: Vec<String>,
    pub warnings: Vec<String>,
}

/// What a health check observed.
#[derive(Debug, Clone)]
pub struct HealthObservation {
    /// Whether the camera is capturing.
    pub camera_capturing: bool,
    /// Whether the ring buffer holds a frame.
    pub has_latest_frame: bool,
    /// Ring buffer utilization in percent.
    pub utilization_percent: u64,
    /// Frames lost to overruns.
    pub buffer_overruns: u64,
    /// The error text of a failed camera connection test.
    pub connection_error: Option<String>,
}

/// The texts of a vector of strings.
pub open spec fn texts(v: Seq<String>) -> Seq<Seq<char>> {
    v.map_values(|s: String| s@)
}

/// The problems a health check reports, in order: camera not capturing, no
/// frames, failed connection test.
pub open spec fn spec_issues(o: HealthObservation) -> Seq<Seq<char>> {
    let a: Seq<Seq<char>> = if !o.camera_capturing { seq!["Camera is not capturing"@] } else { Seq::empty() };
    let b: Seq<Seq<char>> = if !o.has_latest_frame { seq!["No frames in ring buffer"@] } else { Seq::empty() };
    let c: Seq<Seq<char>> = match o.connection_error {
        Some(e) => seq!["Camera connection test failed: "@ + e@],
        None => Seq::empty(),
    };
    a + b + c
}

/// The warnings a health check raises, in order: utilization above 90% and
/// overruns.
pub open spec fn spec_warnings(o: HealthObservation) -> Seq<Seq<char>> {
    let a: Seq<Seq<char>> = if o.utilization_percent > 90 {
        seq!["High ring buffer utilization: "@ + decimal(o.utilization_percent as nat) + "%"@]
    } else {
        Seq::empty()
    };
    let b: Seq<Seq<char>> = if o.buffer_overruns > 0 {
        seq!["Buffer overruns detected: "@ + decimal(o.buffer_overruns as nat)]
    } else {
        Seq::empty()
    };
    a + b
}

/// Unhealthy with any problem, else warning with any warning, else healthy.
pub open spec fn spec_status(issues: Seq<Seq<char>>, warnings: Seq<Seq<char>>) -> HealthStatus {
    if issues.len() > 0 {
        HealthStatus::Unhealthy
    } else if warnings.len() > 0 {
        HealthStatus::Warning
    } else {
        HealthStatus::Healthy
    }
}

fn push_text(v: &mut Vec<String>, s: String)
    ensures
        texts(final(v)@) == texts(old(v)@).push(s@),
{
    let ghost before = v@;
    v.push(s);
    assert(texts(v@) =~= texts(before).push(s@));
}

/// Assess the integration's health from what was observed.
pub fn assess_health(o: &HealthObservation) -> (r: HealthCheckResult)
    ensures
        texts(r.issues@) == spec_issues(*o),
        texts(r.warnings@) == spec_warnings(*o),
        r.status == spec_status(spec_issues(*o), spec_warnings(*o)),
{
    let mut issues: Vec<String> = Vec::new();
    let mut warnings: Vec<String> = Vec::new();
    assert(texts(issues@) =~= Seq::<Seq<char>>::empty());
    assert(texts(warnings@) =~= Seq::<Seq<char>>::empty());
    if !o.camera_capturing {
        push_text(&mut issues, "Camera is not capturing".to_owned());
    }
    if !o.has_latest_frame {
        push_text(&mut issues, "No frames in ring buffer".to_owned());
    }
    if o.utilization_percent > 90 {
        let mut w = "High ring buffer utilization: ".to_owned();
        push_decimal(&mut w, o.utilization_percent);
        w.append("%");
        push_text(&mut warnings, w);
    }
    if o.buffer_overruns > 0 {
        let mut w = "Buffer overruns detected: ".to_owned();
        push_decimal(&mut w, o.buffer_overruns);
        push_text(&mut warnings, w);
    }
    if let Some(e) = &o.connection_error {
        let mut t = "Camera connection test failed: ".to_owned();
        t.append(e.as_str());
        push_text(&mut issues, t);
    }
    assert(texts(issues@) =~= spec_issues(*o));
    assert(texts(warnings@) =~= spec_warnings(*o));
    let status = if issues.len() == 0 {
        if warnings.len() == 0 {
            HealthStatus::Healthy
        } else {
            HealthStatus::Warning
        }
    } else {
        HealthStatus::Unhealthy
    };
    HealthCheckResult { status, issues, warnings }
}


/// A camera health check is healthy exactly when the camera is capturing,
/// the ring buffer holds a frame, the connection test passed, utilization
/// is at most 90% and no frame was lost to overruns; it is unhealthy
/// whenever any of the first three fails.
pub proof fn law_camera_health(o: HealthObservation)
    ensures
        spec_status(spec_issues(o), spec_warnings(o)) == HealthStatus::Healthy <==> (o.camera_capturing
            && o.has_latest_frame && o.connection_error is None && o.utilization_percent <= 90 && o.buffer_overruns
            == 0),
        spec_status(spec_issues(o), spec_warnings(o)) == HealthStatus::Unhealthy <==> (!o.camera_capturing
            || !o.has_latest_frame || o.connection_error is Some),
{
}

} // verus!
