use doorcam::camera_health::{assess_health, HealthObservation, HealthStatus};
use doorcam::display::stats::DisplayStats;
use doorcam::names::NameTable;

fn healthy() -> HealthObservation {
    HealthObservation {
        camera_capturing: true,
        has_latest_frame: true,
        utilization_percent: 50,
        buffer_overruns: 0,
        connection_error: None,
    }
}

#[test]
fn healthy_integration() {
    let r = assess_health(&healthy());
    assert_eq!(r.status, HealthStatus::Healthy);
    assert!(r.issues.is_empty());
    assert!(r.warnings.is_empty());
}

#[test]
fn warnings_and_issues() {
    let mut o = healthy();
    o.utilization_percent = 95;
    o.buffer_overruns = 3;
    let r = assess_health(&o);
    assert_eq!(r.status, HealthStatus::Warning);
    assert_eq!(r.warnings, vec!["High ring buffer utilization: 95%", "Buffer overruns detected: 3"]);

    o.camera_capturing = false;
    o.connection_error = Some("device gone".to_string());
    let r = assess_health(&o);
    assert_eq!(r.status, HealthStatus::Unhealthy);
    assert_eq!(r.issues, vec!["Camera is not capturing", "Camera connection test failed: device gone"]);
}

#[test]
fn display_stats_count_and_reset() {
    let mut s = DisplayStats::default();
    s.record_frame_render();
    s.record_frame_render();
    s.record_render_error();
    s.record_touch_event();
    s.record_activation();
    assert_eq!(s.frames_rendered, 2);
    assert_eq!(s.render_errors, 1);
    assert_eq!(s.touch_events, 1);
    assert_eq!(s.activations, 1);
    assert!(s.last_frame_time.is_some());
    s.reset();
    assert_eq!(s.frames_rendered, 0);
    assert!(s.last_frame_time.is_none());
}

#[test]
fn name_table_keeps_one_value_per_name() {
    let mut t: NameTable<u32> = NameTable::new();
    t.set("camera", 1);
    t.set("display", 2);
    t.set("camera", 3);
    assert_eq!(t.len(), 2);
    assert_eq!(t.get("camera"), Some(3));
    assert!(t.remove("camera"));
    assert!(!t.remove("camera"));
    assert_eq!(t.get("camera"), None);
    let c = t.copy();
    assert_eq!(c.get("display"), Some(2));
    t.clear();
    assert_eq!(t.len(), 0);
    assert_eq!(c.len(), 1);
}
