use doorcam::error::{
    AnalyzerError, CameraError, ConfigError, DoorcamError, ErrorSeverity, LogLevel, RingBufferError, StreamError,
    TouchError,
};
use std::time::Duration;

#[test]
fn test_error_display_formatting() {
    let camera_error = DoorcamError::Camera(CameraError::DeviceOpen { device: 0 });
    assert_eq!(camera_error.to_string(), "Camera error: Failed to open camera device 0");

    let analyzer_error = DoorcamError::Analyzer(AnalyzerError::FrameProcessing { details: "Test error".to_string() });
    assert_eq!(analyzer_error.to_string(), "Motion analysis error: Frame processing failed: Test error");

    let system_error = DoorcamError::system("Test system error");
    assert_eq!(system_error.to_string(), "System error: Test system error");
}

#[test]
fn test_recoverable_error_classification() {
    assert!(DoorcamError::Camera(CameraError::Disconnected).is_recoverable());
    assert!(DoorcamError::Camera(CameraError::DeviceOpen { device: 0 }).is_recoverable());
    assert!(DoorcamError::Camera(CameraError::FrameTimeout { timeout: Duration::from_secs(1) }).is_recoverable());
    assert!(DoorcamError::Touch(TouchError::DeviceOpen {
        device: "/dev/input/event0".to_string(),
        details: "Test".to_string()
    })
    .is_recoverable());
    assert!(DoorcamError::Touch(TouchError::DeviceRead { details: "Test".to_string() }).is_recoverable());

    assert!(!DoorcamError::system("Critical error").is_recoverable());
    assert!(!DoorcamError::Shutdown.is_recoverable());
    assert!(!DoorcamError::recovery_failed("camera", 5).is_recoverable());
    assert!(!DoorcamError::Touch(TouchError::PermissionDenied("Test".to_string())).is_recoverable());
}

#[test]
fn test_component_name_extraction() {
    assert_eq!(DoorcamError::Camera(CameraError::Disconnected).component_name(), "camera");
    assert_eq!(DoorcamError::Analyzer(AnalyzerError::NotAvailable).component_name(), "analyzer");
    assert_eq!(DoorcamError::Touch(TouchError::NotAvailable).component_name(), "touch");
    assert_eq!(DoorcamError::system("test").component_name(), "system");
    assert_eq!(DoorcamError::component("custom", "test").component_name(), "custom");
}

#[test]
fn test_error_severity_levels() {
    assert_eq!(DoorcamError::Shutdown.severity(), ErrorSeverity::Info);
    assert_eq!(DoorcamError::Camera(CameraError::NotAvailable).severity(), ErrorSeverity::Warning);
    assert_eq!(DoorcamError::recovery_failed("test", 3).severity(), ErrorSeverity::Critical);
    assert_eq!(DoorcamError::Camera(CameraError::Disconnected).severity(), ErrorSeverity::Warning);
    assert_eq!(DoorcamError::system("error").severity(), ErrorSeverity::Error);
}

#[test]
fn test_error_severity_to_tracing_level() {
    assert_eq!(ErrorSeverity::Info.to_tracing_level(), tracing::Level::INFO);
    assert_eq!(ErrorSeverity::Warning.to_tracing_level(), tracing::Level::WARN);
    assert_eq!(ErrorSeverity::Error.to_tracing_level(), tracing::Level::ERROR);
    assert_eq!(ErrorSeverity::Critical.to_tracing_level(), tracing::Level::ERROR);
}

#[test]
fn test_camera_error_types() {
    let device_error = CameraError::DeviceOpen { device: 1 };
    assert_eq!(device_error.to_string(), "Failed to open camera device 1");

    let config_error = CameraError::Configuration { details: "Invalid format".to_string() };
    assert_eq!(config_error.to_string(), "Failed to configure camera: Invalid format");

    let timeout_error = CameraError::FrameTimeout { timeout: Duration::from_millis(500) };
    assert!(timeout_error.to_string().contains("Frame timeout"));
}

#[test]
fn test_analyzer_error_types() {
    let processing_error = AnalyzerError::FrameProcessing { details: "Invalid frame format".to_string() };
    assert_eq!(processing_error.to_string(), "Frame processing failed: Invalid frame format");

    let motion_error = AnalyzerError::MotionDetection { details: "Algorithm failed".to_string() };
    assert_eq!(motion_error.to_string(), "Motion detection algorithm failed: Algorithm failed");

    let not_available_error = AnalyzerError::NotAvailable;
    assert_eq!(not_available_error.to_string(), "Feature not available (motion analysis disabled)");
}

#[test]
fn test_error_builder_methods() {
    let system_error = DoorcamError::system("Test message");
    match system_error {
        DoorcamError::System { message } => assert_eq!(message, "Test message"),
        _ => panic!("Expected System error"),
    }

    let component_error = DoorcamError::component("test_component", "Test message");
    match component_error {
        DoorcamError::Component { component, message } => {
            assert_eq!(component, "test_component");
            assert_eq!(message, "Test message");
        }
        _ => panic!("Expected Component error"),
    }

    let recovery_error = DoorcamError::recovery_failed("camera", 3);
    match recovery_error {
        DoorcamError::RecoveryFailed { component, attempts } => {
            assert_eq!(component, "camera");
            assert_eq!(attempts, 3);
        }
        _ => panic!("Expected RecoveryFailed error"),
    }
}

#[test]
fn frame_timeout_message_shows_the_duration() {
    let timeout_error = CameraError::FrameTimeout { timeout: Duration::from_millis(500) };
    assert_eq!(timeout_error.to_string(), "Frame timeout after 500ms");
}

#[test]
fn io_error_message_carries_the_source_text() {
    let e = DoorcamError::Io(std::io::Error::new(std::io::ErrorKind::NotFound, "File not found"));
    assert_eq!(e.to_string(), "IO error: File not found");
    let s = StreamError::BindFailed {
        address: "0.0.0.0:80".to_string(),
        source: std::io::Error::new(std::io::ErrorKind::Other, "in use"),
    };
    assert_eq!(s.to_string(), "Failed to bind to 0.0.0.0:80: in use");
}

#[test]
fn composite_messages() {
    assert_eq!(
        DoorcamError::recovery_failed("camera", 12).to_string(),
        "Recovery failed for camera after 12 attempts"
    );
    assert_eq!(
        DoorcamError::component("wal", "broken").to_string(),
        "Component error in wal: broken"
    );
    assert_eq!(DoorcamError::Shutdown.to_string(), "Graceful shutdown requested");
    assert_eq!(
        DoorcamError::Config(ConfigError::Message("bad".to_string())).to_string(),
        "Configuration error: bad"
    );
    assert_eq!(
        RingBufferError::Overflow { capacity: 150 }.to_string(),
        "Buffer overflow: attempted to store more than 150 frames"
    );
    assert_eq!(
        CameraError::DeviceOpenWithSource { device: 2, details: "busy".to_string() }.to_string(),
        "Failed to open camera device 2: busy"
    );
}

#[test]
fn severity_log_levels() {
    assert_eq!(ErrorSeverity::Critical.log_level(), LogLevel::Error);
    assert_eq!(ErrorSeverity::Warning.log_level(), LogLevel::Warn);
    assert_eq!(ErrorSeverity::Info.log_level(), LogLevel::Info);
    assert_eq!(
        DoorcamError::Config(ConfigError::Message("x".to_string())).severity(),
        ErrorSeverity::Critical
    );
}
