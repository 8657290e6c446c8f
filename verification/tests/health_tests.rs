use doorcam::health::{report_level, ReportLevel, SystemHealthManager};
use doorcam::health::{failure_response, FailureResponse, SystemMetrics};
use doorcam::recovery::{ComponentHealth, GracefulDegradation};

#[test]
fn test_system_metrics() {
    let mut metrics = SystemMetrics::new();

    metrics.record_error("camera");
    metrics.record_error("camera");
    metrics.record_recovery("camera");

    assert_eq!(metrics.get_error_count("camera"), 2);
    assert_eq!(metrics.get_recovery_count("camera"), 1);
    assert_eq!(metrics.get_error_count("display"), 0);

    metrics.reset();
    assert_eq!(metrics.get_error_count("camera"), 0);
    assert_eq!(metrics.get_recovery_count("camera"), 0);
}

#[test]
fn failure_of_an_essential_component_shuts_down() {
    let degradation = GracefulDegradation::new();
    let r = failure_response(&degradation, "ring_buffer", ComponentHealth::Failed);
    assert!(matches!(r, FailureResponse::ShutdownRequired));
    let r = failure_response(&degradation, "camera", ComponentHealth::Failed);
    assert!(matches!(r, FailureResponse::ContinueDegraded));
    let r = failure_response(&degradation, "camera", ComponentHealth::Degraded);
    assert!(matches!(r, FailureResponse::NoResponse));
}

#[test]
fn report_lists_counts() {
    let mut metrics = SystemMetrics::new();
    metrics.record_error("camera");
    let report = metrics.generate_report();
    assert!(report.starts_with("=== System Metrics Report ===\nTime since reset: "));
    assert!(report.contains("\nError Counts:\n  camera: 1\n"));
    assert!(report.ends_with("\nRecovery Counts:\n=== End Metrics Report ==="));
}

#[test]
fn health_manager_reports_essential_failures() {
    let mut manager = SystemHealthManager::new();
    assert!(matches!(
        manager.update_component_health("camera", ComponentHealth::Failed),
        FailureResponse::ContinueDegraded
    ));
    assert!(!manager.should_shutdown());
    assert!(matches!(
        manager.update_component_health("event_bus", ComponentHealth::Failed),
        FailureResponse::ShutdownRequired
    ));
    assert!(manager.should_shutdown());
    assert_eq!(manager.get_system_health(), ComponentHealth::Failed);
    manager.record_health_check(true);
    assert_eq!(manager.get_component_health("event_bus"), ComponentHealth::Healthy);
    assert_eq!(manager.get_component_health("ring_buffer"), ComponentHealth::Healthy);
    assert!(!manager.should_shutdown());
    let (overall, table) = manager.health_report();
    assert_eq!(overall, ComponentHealth::Failed);
    assert_eq!(table.len(), 3);
    assert_eq!(report_level(ComponentHealth::Healthy), ReportLevel::Debug);
    assert_eq!(report_level(ComponentHealth::Unknown), ReportLevel::Warn);
    assert_eq!(report_level(ComponentHealth::Failed), ReportLevel::Error);
}

#[test]
fn report_for_a_given_time() {
    let mut metrics = SystemMetrics::new();
    metrics.record_recovery("display");
    let report = metrics.report_since(&std::time::Duration::from_millis(1500));
    assert_eq!(
        report,
        "=== System Metrics Report ===\nTime since reset: 1.5s\n\nError Counts:\n\nRecovery Counts:\n  display: 1\n=== End Metrics Report ==="
    );
}
