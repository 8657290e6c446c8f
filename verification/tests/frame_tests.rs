use doorcam::error::{DoorcamError, ProcessingError};
use doorcam::frame::{FrameData, FrameFormat, FrameProcessor, FramePurpose, ProcessedFrame, Rotation};
use std::time::SystemTime;

#[test]
fn test_frame_format_properties() {
    assert_eq!(FrameFormat::Mjpeg.bytes_per_pixel(), 0);
    assert_eq!(FrameFormat::Yuyv.bytes_per_pixel(), 2);
    assert_eq!(FrameFormat::Rgb24.bytes_per_pixel(), 3);

    assert!(FrameFormat::Mjpeg.is_compressed());
    assert!(!FrameFormat::Yuyv.is_compressed());
    assert!(!FrameFormat::Rgb24.is_compressed());
}

#[test]
fn test_rotation_degrees() {
    assert_eq!(Rotation::Rotate90.degrees(), 90);
    assert_eq!(Rotation::Rotate180.degrees(), 180);
    assert_eq!(Rotation::Rotate270.degrees(), 270);
}

#[test]
fn test_frame_data_creation() {
    let data = vec![0u8; 1920 * 1080 * 2];
    let frame = FrameData::new(1, SystemTime::now(), data, 1920, 1080, FrameFormat::Yuyv);

    assert_eq!(frame.id, 1);
    assert_eq!(frame.width, 1920);
    assert_eq!(frame.height, 1080);
    assert_eq!(frame.format, FrameFormat::Yuyv);
    assert!(frame.validate_size());
}

#[test]
fn test_frame_size_validation() {
    let valid_data = vec![0u8; 640 * 480 * 2];
    let valid_frame = FrameData::new(1, SystemTime::now(), valid_data, 640, 480, FrameFormat::Yuyv);
    assert!(valid_frame.validate_size());

    let invalid_data = vec![0u8; 100];
    let invalid_frame = FrameData::new(2, SystemTime::now(), invalid_data, 640, 480, FrameFormat::Yuyv);
    assert!(!invalid_frame.validate_size());

    let mjpeg_data = vec![0u8; 5000];
    let mjpeg_frame = FrameData::new(3, SystemTime::now(), mjpeg_data, 640, 480, FrameFormat::Mjpeg);
    assert!(mjpeg_frame.validate_size());
}

#[test]
fn test_processed_frame() {
    let frame = FrameData::new(1, SystemTime::now(), vec![0u8; 100], 640, 480, FrameFormat::Mjpeg);

    let processed = ProcessedFrame::new(frame);

    assert_eq!(processed.get_data_for_purpose(FramePurpose::Display).len(), 100);
    assert_eq!(processed.get_data_for_purpose(FramePurpose::Streaming).len(), 100);
}

#[test]
fn expected_size_is_width_height_and_bytes_per_pixel() {
    let f = FrameData::new(1, SystemTime::now(), vec![0u8; 12], 2, 2, FrameFormat::Rgb24);
    assert_eq!(f.expected_size(), Some(12));
    assert!(f.validate_size());
    let m = FrameData::new(2, SystemTime::now(), vec![1u8; 7], 2, 2, FrameFormat::Mjpeg);
    assert_eq!(m.expected_size(), None);
    let short = FrameData::new(3, SystemTime::now(), vec![0u8; 11], 2, 2, FrameFormat::Rgb24);
    assert!(!short.validate_size());
}

#[test]
fn processed_frame_prefers_display_ready_data() {
    let frame = FrameData::new(1, SystemTime::now(), vec![0u8; 10], 1, 1, FrameFormat::Mjpeg);
    let mut processed = ProcessedFrame::new(frame);
    processed.display_ready = Some(std::sync::Arc::new(vec![1u8; 3]));
    processed.rotated = Some(std::sync::Arc::new(vec![2u8; 4]));
    assert_eq!(processed.get_data_for_purpose(FramePurpose::Display).len(), 3);
    assert_eq!(processed.get_data_for_purpose(FramePurpose::Streaming).len(), 4);
    assert_eq!(processed.get_data_for_purpose(FramePurpose::Analysis).len(), 4);
}

fn jpeg_of_size(w: u32, h: u32) -> Vec<u8> {
    let img = image::RgbImage::from_pixel(w, h, image::Rgb([10, 200, 30]));
    let mut out = Vec::new();
    image::codecs::jpeg::JpegEncoder::new_with_quality(&mut out, 90).encode_image(&img).unwrap();
    out
}

#[test]
fn mjpeg_frames_are_rotated_clockwise() {
    let frame = FrameData::new(1, SystemTime::now(), jpeg_of_size(16, 8), 16, 8, FrameFormat::Mjpeg);
    let quarter = FrameProcessor::apply_rotation(&frame, Rotation::Rotate90).unwrap();
    let decoded = image::load_from_memory(&quarter).unwrap();
    assert_eq!((decoded.width(), decoded.height()), (8, 16));
    let half = FrameProcessor::apply_rotation(&frame, Rotation::Rotate180).unwrap();
    let decoded = image::load_from_memory(&half).unwrap();
    assert_eq!((decoded.width(), decoded.height()), (16, 8));
    let processed = ProcessedFrame::from_frame(frame, Some(Rotation::Rotate270)).unwrap();
    let decoded = image::load_from_memory(processed.rotated.as_ref().unwrap()).unwrap();
    assert_eq!((decoded.width(), decoded.height()), (8, 16));
}

#[test]
fn rotation_of_other_formats_keeps_the_bytes_and_bad_jpeg_fails() {
    let raw = FrameData::new(1, SystemTime::now(), vec![1, 2, 3, 4, 5, 6], 1, 2, FrameFormat::Rgb24);
    assert_eq!(*FrameProcessor::apply_rotation(&raw, Rotation::Rotate90).unwrap(), vec![1, 2, 3, 4, 5, 6]);
    let bad = FrameData::new(2, SystemTime::now(), vec![0, 1, 2], 1, 1, FrameFormat::Mjpeg);
    match FrameProcessor::apply_rotation(&bad, Rotation::Rotate90) {
        Err(DoorcamError::Processing(ProcessingError::Rotation { details })) => {
            assert!(details.starts_with("JPEG decode failed: "))
        }
        _ => panic!("expected a rotation error"),
    }
}

#[test]
fn test_frame_age() {
    let past_time = SystemTime::now() - std::time::Duration::from_millis(100);
    let frame = FrameData::new(1, past_time, vec![0u8; 100], 640, 480, FrameFormat::Mjpeg);
    assert!(frame.is_older_than(std::time::Duration::from_millis(50)));
    assert!(!frame.is_older_than(std::time::Duration::from_millis(200)));
    let age = frame.age_ms();
    assert!((100..200).contains(&age));
    let future = FrameData::new(2, SystemTime::now() + std::time::Duration::from_secs(60), vec![], 1, 1, FrameFormat::Mjpeg);
    assert_eq!(future.age_ms(), 0);
    assert!(!future.is_older_than(std::time::Duration::from_millis(0)));
}
