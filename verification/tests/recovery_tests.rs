use doorcam::recovery::{CameraRecovery, RecoveryStep, TouchRecovery};
use doorcam::error::{CameraError, DoorcamError, TouchError};
use doorcam::recovery::{
    ComponentHealth, GracefulDegradation, HealthMonitor, RecoveryAction, RecoveryConfig, RecoveryManager,
};

#[test]
fn test_recovery_manager_retry_logic() {
    let mut manager = RecoveryManager::new();
    let error = DoorcamError::Camera(CameraError::Disconnected);

    let action = manager.handle_error("camera", &error);
    assert!(matches!(action, RecoveryAction::RetryAfterDelay(_)));
    assert_eq!(manager.get_retry_count("camera"), 1);

    for _ in 1..manager.config().max_retries {
        manager.handle_error("camera", &error);
    }

    let final_action = manager.handle_error("camera", &error);
    assert_eq!(final_action, RecoveryAction::Continue);
}

#[test]
fn test_health_monitor() {
    let mut monitor = HealthMonitor::new();

    assert_eq!(monitor.get_component_health("camera"), ComponentHealth::Unknown);

    monitor.update_component_health("camera", ComponentHealth::Healthy);
    assert_eq!(monitor.get_component_health("camera"), ComponentHealth::Healthy);

    assert_eq!(monitor.get_system_health(), ComponentHealth::Healthy);

    monitor.update_component_health("display", ComponentHealth::Failed);
    assert_eq!(monitor.get_system_health(), ComponentHealth::Failed);
}

#[test]
fn test_graceful_degradation() {
    let degradation = GracefulDegradation::new();

    assert!(degradation.should_shutdown_on_failure("ring_buffer"));
    assert!(degradation.should_shutdown_on_failure("event_bus"));

    assert!(!degradation.should_shutdown_on_failure("camera"));
    assert!(!degradation.should_shutdown_on_failure("display"));

    assert!(degradation.is_optional_component("camera"));
    assert!(!degradation.is_optional_component("ring_buffer"));
}

#[test]
fn retry_delays_double_from_the_base_delay() {
    let mut manager = RecoveryManager::new();
    assert_eq!(manager.config().max_retries, 5);
    let error = DoorcamError::Camera(CameraError::Disconnected);
    assert_eq!(manager.handle_error("camera", &error), RecoveryAction::RetryAfterDelay(1000));
    assert_eq!(manager.handle_error("camera", &error), RecoveryAction::RetryAfterDelay(2000));
    assert_eq!(manager.handle_error("camera", &error), RecoveryAction::RetryAfterDelay(4000));
}

#[test]
fn retry_delay_is_capped_at_the_maximum() {
    let mut manager = RecoveryManager::with_config(RecoveryConfig {
        max_retries: 10,
        base_delay_ms: 1000,
        max_delay_ms: 5000,
        exponential_backoff: true,
    });
    let error = DoorcamError::Camera(CameraError::Disconnected);
    let delays: Vec<RecoveryAction> = (0..5).map(|_| manager.handle_error("camera", &error)).collect();
    assert_eq!(
        delays,
        vec![
            RecoveryAction::RetryAfterDelay(1000),
            RecoveryAction::RetryAfterDelay(2000),
            RecoveryAction::RetryAfterDelay(4000),
            RecoveryAction::RetryAfterDelay(5000),
            RecoveryAction::RetryAfterDelay(5000),
        ]
    );
}

#[test]
fn retry_delay_without_backoff_is_the_base_delay() {
    let mut manager = RecoveryManager::with_config(RecoveryConfig {
        max_retries: 10,
        base_delay_ms: 700,
        max_delay_ms: 5000,
        exponential_backoff: false,
    });
    let error = DoorcamError::Camera(CameraError::Disconnected);
    assert_eq!(manager.handle_error("camera", &error), RecoveryAction::RetryAfterDelay(700));
    assert_eq!(manager.handle_error("camera", &error), RecoveryAction::RetryAfterDelay(700));
}

#[test]
fn spent_retries_of_an_essential_component_shut_down() {
    let mut manager = RecoveryManager::with_config(RecoveryConfig {
        max_retries: 1,
        base_delay_ms: 10,
        max_delay_ms: 100,
        exponential_backoff: true,
    });
    let error = DoorcamError::Io(std::io::Error::new(std::io::ErrorKind::Other, "x"));
    assert_eq!(manager.handle_error("ring_buffer", &error), RecoveryAction::RetryAfterDelay(10));
    assert_eq!(manager.handle_error("ring_buffer", &error), RecoveryAction::Shutdown);
}

#[test]
fn unrecoverable_errors_shut_down() {
    let mut manager = RecoveryManager::new();
    let action = manager.handle_error("system", &DoorcamError::system("fatal"));
    assert_eq!(action, RecoveryAction::Shutdown);
    assert_eq!(manager.get_retry_count("system"), 0);
}

#[test]
fn reset_clears_the_retry_count() {
    let mut manager = RecoveryManager::new();
    let error = DoorcamError::Camera(CameraError::Disconnected);
    manager.handle_error("camera", &error);
    manager.handle_error("camera", &error);
    assert_eq!(manager.get_retry_count("camera"), 2);
    manager.reset_retry_count("camera");
    assert_eq!(manager.get_retry_count("camera"), 0);
    assert!(!manager.has_exceeded_retry_limit("camera"));
}

#[test]
fn retry_limit_is_reported_after_max_retries() {
    let mut manager = RecoveryManager::new();
    let error = DoorcamError::Touch(TouchError::DeviceRead { details: "x".to_string() });
    for _ in 0..5 {
        manager.handle_error("touch", &error);
    }
    assert!(manager.has_exceeded_retry_limit("touch"));
    assert_eq!(manager.get_retry_count("touch"), 5);
    assert_eq!(manager.handle_error("touch", &error), RecoveryAction::Continue);
    assert_eq!(manager.get_retry_count("touch"), 5);
}

#[test]
fn degraded_components_make_the_system_degraded() {
    let mut monitor = HealthMonitor::new();
    monitor.update_component_health("camera", ComponentHealth::Healthy);
    monitor.update_component_health("touch", ComponentHealth::Degraded);
    assert_eq!(monitor.get_system_health(), ComponentHealth::Degraded);
}

#[test]
fn added_components_change_the_classification() {
    let mut degradation = GracefulDegradation::new();
    degradation.add_essential_component("storage".to_string());
    assert!(degradation.should_shutdown_on_failure("storage"));
    degradation.add_optional_component("storage".to_string());
    assert!(degradation.should_shutdown_on_failure("storage"));
    assert!(degradation.is_optional_component("storage"));
    assert!(!degradation.is_optional_component("event_bus"));
}

#[test]
fn camera_recovery_steps() {
    let mut recovery = CameraRecovery::new();
    assert!(matches!(
        recovery.after_reconnect_attempt(Err(CameraError::Disconnected)),
        RecoveryStep::RetryAfter(1000)
    ));
    assert!(matches!(
        recovery.after_reconnect_attempt(Err(CameraError::Disconnected)),
        RecoveryStep::RetryAfter(2000)
    ));
    assert!(matches!(recovery.after_reconnect_attempt(Ok(())), RecoveryStep::Done(Ok(()))));
    assert!(matches!(
        recovery.after_reconnect_attempt(Err(CameraError::Disconnected)),
        RecoveryStep::RetryAfter(1000)
    ));
    assert!(matches!(
        recovery.after_reconnect_attempt(Err(CameraError::NotAvailable)),
        RecoveryStep::Done(Ok(()))
    ));
    match recovery.after_reconnect_attempt(Err(CameraError::Configuration { details: "x".to_string() })) {
        RecoveryStep::Done(Err(DoorcamError::RecoveryFailed { component, attempts })) => {
            assert_eq!(component, "camera");
            assert_eq!(attempts, 1);
        }
        _ => panic!("expected a failed recovery"),
    }
}

#[test]
fn touch_recovery_gives_up_on_permission_errors() {
    let mut recovery = TouchRecovery::new();
    assert!(matches!(
        recovery.after_reconnect_attempt(Err(TouchError::DeviceRead { details: "x".to_string() })),
        RecoveryStep::RetryAfter(1000)
    ));
    match recovery.after_reconnect_attempt(Err(TouchError::PermissionDenied("x".to_string()))) {
        RecoveryStep::Done(Err(DoorcamError::RecoveryFailed { component, attempts })) => {
            assert_eq!(component, "touch");
            assert_eq!(attempts, 1);
        }
        _ => panic!("expected a failed recovery"),
    }
}

#[test]
fn retry_count_over_a_run_of_errors() {
    let cfg = RecoveryConfig { max_retries: 3, base_delay_ms: 10, max_delay_ms: 1000, exponential_backoff: true };
    let error = DoorcamError::Camera(CameraError::Disconnected);
    for n in 0..7u32 {
        let mut manager = RecoveryManager::with_config(cfg);
        for _ in 0..n {
            manager.handle_error("camera", &error);
        }
        assert_eq!(manager.get_retry_count("camera"), n.min(3));
        assert_eq!(manager.has_exceeded_retry_limit("camera"), n >= 3);
    }
    let mut manager = RecoveryManager::with_config(cfg);
    for _ in 0..5 {
        manager.handle_error("camera", &error);
    }
    manager.reset_retry_count("camera");
    manager.handle_error("camera", &error);
    assert_eq!(manager.get_retry_count("camera"), 1);
    assert!(!manager.has_exceeded_retry_limit("camera"));
}
