use doorcam::camera::{mock_frame, mock_frame_data};
use doorcam::config::DoorcamConfig;
use doorcam::frame::FrameFormat;
use std::time::SystemTime;

#[test]
fn mock_frames_are_jpeg_shaped() {
    let data = mock_frame_data(0);
    assert_eq!(data.len(), 20 + 1000 + 2);
    assert_eq!(&data[..4], &[0xFF, 0xD8, 0xFF, 0xE0]);
    assert_eq!(&data[data.len() - 2..], &[0xFF, 0xD9]);
    assert!(data[20..1020].iter().all(|&b| b == 0));
}

#[test]
fn mock_frame_size_and_fill_follow_the_frame_number() {
    let data = mock_frame_data(777);
    assert_eq!(data.len(), 20 + 1000 + 277 + 2);
    assert!(data[20..20 + 1277].iter().all(|&b| b == (777 % 256) as u8));
    assert_eq!(mock_frame_data(500).len(), 1022);
    assert_eq!(mock_frame_data(499).len(), 1521);
}

#[test]
fn mock_frames_carry_the_camera_size() {
    let config = DoorcamConfig::default();
    let now = SystemTime::now();
    let frame = mock_frame(5, now, &config.camera);
    assert_eq!(frame.id, 5);
    assert_eq!(frame.timestamp, now);
    assert_eq!((frame.width, frame.height), (640, 480));
    assert_eq!(frame.format, FrameFormat::Mjpeg);
    assert_eq!(frame.data.len(), 1027);
}
