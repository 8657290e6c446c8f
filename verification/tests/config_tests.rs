use doorcam::config::{
    default_activation_period, default_analyzer_fps, default_backlight_device, default_camera_format,
    default_camera_fps, default_camera_index, default_camera_resolution, default_capture_path, default_contour_area,
    default_delta_threshold, default_display_jpeg_decode_scale, default_display_resolution,
    default_event_bus_capacity, default_framebuffer_device, default_jpeg_decode_scale, default_keep_images,
    default_postroll_seconds, default_preroll_seconds, default_retention_days, default_ring_buffer_capacity,
    default_save_metadata, default_stream_ip, default_stream_port, default_timestamp_font_path,
    default_timestamp_font_size, default_timestamp_overlay, default_touch_device, default_trim_old,
    default_video_encoding, AnalyzerConfig, CameraConfig, CaptureConfig, DisplayConfig, DoorcamConfig, EventConfig,
    StreamConfig, SystemConfig,
};
use doorcam::error::ConfigError;

#[test]
fn test_default_config() {
    let config = DoorcamConfig {
        camera: CameraConfig {
            index: default_camera_index(),
            resolution: default_camera_resolution(),
            fps: default_camera_fps(),
            format: default_camera_format(),
        },
        analyzer: AnalyzerConfig {
            fps: default_analyzer_fps(),
            delta_threshold: default_delta_threshold(),
            contour_minimum_area_bits: default_contour_area(),
            jpeg_decode_scale: default_jpeg_decode_scale(),
        },
        event: EventConfig {
            preroll_seconds: default_preroll_seconds(),
            postroll_seconds: default_postroll_seconds(),
        },
        capture: CaptureConfig {
            path: default_capture_path(),
            timestamp_overlay: default_timestamp_overlay(),
            timestamp_font_path: default_timestamp_font_path(),
            timestamp_font_size_bits: default_timestamp_font_size(),
            video_encoding: default_video_encoding(),
            keep_images: default_keep_images(),
            save_metadata: default_save_metadata(),
            rotation: None,
        },
        stream: StreamConfig { ip: default_stream_ip(), port: default_stream_port(), rotation: None },
        display: DisplayConfig {
            framebuffer_device: default_framebuffer_device(),
            backlight_device: default_backlight_device(),
            touch_device: default_touch_device(),
            activation_period_seconds: default_activation_period(),
            resolution: default_display_resolution(),
            rotation: None,
            jpeg_decode_scale: default_display_jpeg_decode_scale(),
        },
        system: SystemConfig {
            trim_old: default_trim_old(),
            retention_days: default_retention_days(),
            ring_buffer_capacity: default_ring_buffer_capacity(),
            event_bus_capacity: default_event_bus_capacity(),
        },
    };

    assert!(config.validate().is_ok());
}

fn sample_config() -> DoorcamConfig {
    DoorcamConfig {
        camera: CameraConfig { index: 0, resolution: (0, 0), fps: 30, format: "MJPG".to_string() },
        analyzer: AnalyzerConfig {
            fps: 5,
            delta_threshold: 25,
            contour_minimum_area_bits: 1000.0f64.to_bits(),
            jpeg_decode_scale: 4,
        },
        event: EventConfig { preroll_seconds: 5, postroll_seconds: 10 },
        capture: CaptureConfig {
            path: "./captures".to_string(),
            timestamp_overlay: true,
            timestamp_font_path: default_timestamp_font_path(),
            timestamp_font_size_bits: default_timestamp_font_size(),
            video_encoding: false,
            keep_images: false,
            save_metadata: false,
            rotation: None,
        },
        stream: StreamConfig { ip: "0.0.0.0".to_string(), port: 8080, rotation: None },
        display: DisplayConfig {
            framebuffer_device: "/dev/fb0".to_string(),
            backlight_device: "/sys/class/backlight/rpi_backlight/brightness".to_string(),
            touch_device: "/dev/input/event0".to_string(),
            activation_period_seconds: 30,
            resolution: (800, 480),
            rotation: None,
            jpeg_decode_scale: 4,
        },
        system: SystemConfig { trim_old: true, retention_days: 7, ring_buffer_capacity: 150, event_bus_capacity: 100 },
    }
}

#[test]
fn config_test_config_validation() {
    let mut config = sample_config();

    assert!(config.validate().is_err());

    config.camera.resolution = (640, 480);
    assert!(config.validate().is_ok());
}

#[test]
fn tests_test_camera_config_validation() {
    let config = CameraConfig { index: 0, resolution: (640, 480), fps: 30, format: "MJPG".to_string() };

    assert_eq!(config.index, 0);
    assert_eq!(config.resolution, (640, 480));
    assert_eq!(config.fps, 30);
    assert_eq!(config.format, "MJPG");
}

#[test]
fn default_values_match_the_documented_defaults() {
    let c = DoorcamConfig::default();
    assert_eq!(c.camera.resolution, (640, 480));
    assert_eq!(c.camera.fps, 30);
    assert_eq!(f64::from_bits(c.analyzer.contour_minimum_area_bits), 1000.0);
    assert_eq!(f32::from_bits(c.capture.timestamp_font_size_bits), 24.0);
    assert_eq!(c.stream.port, 8080);
    assert!(c.validate().is_ok());
}

#[test]
fn validation_reports_the_first_rule_broken() {
    let mut c = sample_config();
    assert_eq!(
        c.validate(),
        Err(ConfigError::Message("Camera resolution must be greater than 0".to_string()))
    );
    c.camera.resolution = (640, 480);
    c.camera.fps = 0;
    assert!(matches!(c.validate(), Err(ConfigError::Message(_))));
}
