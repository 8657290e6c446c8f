use doorcam::capture::{ActiveCaptures, MotionResponse};
use doorcam::capture::{
    calculate_ring_buffer_capacity, capture_to_extend, finish_capture, map_capture_rotation, postroll_complete,
    preroll_start, validate_capture_config,
};
use doorcam::config::{CaptureConfig, EventConfig, Rotation as ConfigRotation};
use doorcam::error::DoorcamError;
use doorcam::frame::Rotation;

const SEC: u64 = 1_000_000_000;

#[test]
fn ring_buffer_holds_twice_the_preroll() {
    assert_eq!(calculate_ring_buffer_capacity(30, 5), 300);
    assert_eq!(calculate_ring_buffer_capacity(0, 5), 1);
}

#[test]
fn motion_within_postroll_extends_the_capture() {
    let latest = vec![100 * SEC, 200 * SEC];
    assert_eq!(capture_to_extend(&latest, 205 * SEC, 10), Some(1));
    assert_eq!(capture_to_extend(&latest, 215 * SEC, 10), None);
}

#[test]
fn preroll_starts_before_the_motion() {
    assert_eq!(preroll_start(100 * SEC, 5), 95 * SEC);
    assert_eq!(preroll_start(2 * SEC, 5), 0);
}

#[test]
fn postroll_ends_after_the_latest_motion() {
    assert!(!postroll_complete(105 * SEC, 100 * SEC, 100 * SEC, 10));
    assert!(postroll_complete(110 * SEC, 100 * SEC, 100 * SEC, 10));
}

#[test]
fn finished_capture_outcome() {
    let o = finish_capture(10, 4, true);
    assert_eq!(o.total_frame_count, 10);
    assert_eq!(o.preroll_frame_count, 4);
    assert_eq!(o.postroll_frame_count, 6);
    assert!(o.queue_video);
    assert!(!finish_capture(0, 0, true).queue_video);
}

#[test]
fn capture_settings_are_checked() {
    let capture = CaptureConfig {
        path: "./captures".to_string(),
        timestamp_overlay: true,
        timestamp_font_path: "font.ttf".to_string(),
        timestamp_font_size_bits: 24.0f32.to_bits(),
        video_encoding: false,
        keep_images: true,
        save_metadata: true,
        rotation: None,
    };
    assert!(validate_capture_config(&EventConfig { preroll_seconds: 5, postroll_seconds: 10 }, &capture).is_ok());
    match validate_capture_config(&EventConfig { preroll_seconds: 0, postroll_seconds: 10 }, &capture) {
        Err(DoorcamError::Component { component, message }) => {
            assert_eq!(component, "video_capture_integration");
            assert_eq!(message, "Preroll seconds must be greater than 0");
        }
        _ => panic!("expected a preroll error"),
    }
    let empty = CaptureConfig { path: String::new(), ..capture };
    match validate_capture_config(&EventConfig { preroll_seconds: 5, postroll_seconds: 10 }, &empty) {
        Err(DoorcamError::Component { message, .. }) => assert_eq!(message, "Capture path cannot be empty"),
        _ => panic!("expected a path error"),
    }
}

#[test]
fn configured_rotation_maps_to_frame_rotation() {
    assert_eq!(map_capture_rotation(Some(&ConfigRotation::Rotate180)), Some(Rotation::Rotate180));
    assert_eq!(map_capture_rotation(None), None);
}

#[test]
fn motions_extend_or_start_captures() {
    const S: u64 = 1_000_000_000;
    let mut captures = ActiveCaptures::new();
    assert_eq!(captures.on_motion(10 * S, 5, "a".to_string()), MotionResponse::Started);
    assert_eq!(captures.len(), 1);
    assert_eq!(captures.on_motion(13 * S, 5, "b".to_string()), MotionResponse::Extended { index: 0 });
    // 5 s after the latest motion (13 s) is no longer within the postroll.
    assert_eq!(captures.on_motion(18 * S, 5, "c".to_string()), MotionResponse::Started);
    assert_eq!(captures.len(), 2);
    assert_eq!(captures.event_id_at(1), "c");
    assert_eq!(captures.on_motion(20 * S, 5, "d".to_string()), MotionResponse::Extended { index: 1 });
    captures.finish("a");
    assert_eq!(captures.len(), 1);
    assert_eq!(captures.event_id_at(0), "c");
    captures.finish("zzz");
    assert_eq!(captures.len(), 1);
    captures.finish("c");
    assert_eq!(captures.len(), 0);
}
