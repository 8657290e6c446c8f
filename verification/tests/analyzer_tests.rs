use doorcam::analyzer::{analysis_pace, AnalysisPace};
use doorcam::analyzer::{analyzer_event_response, AnalyzerEventResponse};
use doorcam::events::DoorcamEvent;
use doorcam::analyzer::{
    analysis_cursor_step, decode_dimensions, frame_difference, frame_interval_ms, largest_component_area,
    motion_area, motion_labels, yuyv_to_gray, GrayBuffer, MotionAnalysisMetrics,
};
use doorcam::frame::{FrameData, FrameFormat};
use std::time::SystemTime;

#[test]
fn yuyv_luma_is_every_other_byte() {
    // 2x2 frame: Y0 U Y1 V per pixel pair.
    let data = vec![10, 128, 20, 128, 30, 128, 40, 128];
    let frame = FrameData::new(1, SystemTime::now(), data, 2, 2, FrameFormat::Yuyv);
    let g = yuyv_to_gray(&frame);
    assert_eq!((g.width, g.height), (2, 2));
    assert_eq!(g.pixels, vec![10, 20, 30, 40]);
}

#[test]
fn short_yuyv_data_leaves_black_pixels() {
    let frame = FrameData::new(1, SystemTime::now(), vec![9, 0, 8, 0], 2, 2, FrameFormat::Yuyv);
    let g = yuyv_to_gray(&frame);
    assert_eq!(g.pixels, vec![9, 8, 0, 0]);
}

#[test]
fn odd_width_leaves_the_last_column_black() {
    let frame = FrameData::new(1, SystemTime::now(), vec![5, 0, 6, 0, 7, 0, 8, 0], 3, 1, FrameFormat::Yuyv);
    let g = yuyv_to_gray(&frame);
    assert_eq!(g.pixels, vec![5, 6, 0]);
}

#[test]
fn difference_is_absolute_and_sized_like_the_background() {
    let bg = GrayBuffer { width: 2, height: 2, pixels: vec![10, 200, 30, 40] };
    let cur = GrayBuffer { width: 1, height: 2, pixels: vec![15, 20] };
    let d = frame_difference(&bg, &cur);
    assert_eq!((d.width, d.height), (2, 2));
    assert_eq!(d.pixels, vec![5, 0, 10, 0]);
}

#[test]
fn largest_component_counts_the_most_frequent_label() {
    assert_eq!(largest_component_area(&vec![0, 1, 1, 2, 2, 2, 0, 0, 0, 0]), 3);
    assert_eq!(largest_component_area(&vec![0, 0, 0]), 0);
    assert_eq!(largest_component_area(&vec![]), 0);
    assert_eq!(largest_component_area(&vec![u32::MAX, u32::MAX, 7]), 2);
}

#[test]
fn decode_size_is_scaled_and_even() {
    assert_eq!(decode_dimensions(640, 480, 4), (160, 120));
    assert_eq!(decode_dimensions(645, 483, 4), (160, 120));
    assert_eq!(decode_dimensions(30, 3, 0), (30, 2));
    assert_eq!(decode_dimensions(3, 1, 8), (1, 1));
}

#[test]
fn analysis_interval_and_cursor() {
    assert_eq!(frame_interval_ms(5), 200);
    assert_eq!(frame_interval_ms(3), 333);
    assert_eq!(analysis_cursor_step(10, 11), (11, true));
    assert_eq!(analysis_cursor_step(10, 10), (10, false));
    assert_eq!(analysis_cursor_step(10, 3), (3, true));
    assert_eq!(analysis_cursor_step(10, 0), (0, false));
}

#[test]
fn metrics_start_empty() {
    let m = MotionAnalysisMetrics::default();
    assert!(!m.background_initialized);
    assert_eq!(m.frames_processed, 0);
}

fn square_image(side: u32, from: u32, to: u32, value: u8) -> GrayBuffer {
    let mut pixels = vec![0u8; (side * side) as usize];
    for y in from..to {
        for x in from..to {
            pixels[(y * side + x) as usize] = value;
        }
    }
    GrayBuffer { width: side, height: side, pixels }
}

#[test]
fn a_moving_square_is_one_region() {
    let background = square_image(20, 0, 0, 0);
    let current = square_image(20, 5, 15, 200);
    assert_eq!(motion_area(&background, &current, 25), 100);
    let labels = motion_labels(&background, &current, 25);
    assert_eq!(labels.len(), 400);
    assert_eq!(labels[0], 0);
    assert!(labels[10 * 20 + 10] > 0);
}

#[test]
fn small_changes_are_not_motion() {
    let background = GrayBuffer { width: 20, height: 20, pixels: vec![100u8; 400] };
    let mut current = background.clone();
    for y in 5..15 {
        for x in 5..15 {
            current.pixels[y * 20 + x] = 110;
        }
    }
    assert_eq!(motion_area(&background, &current, 25), 0);
    let speck = square_image(20, 9, 11, 255);
    assert_eq!(motion_area(&square_image(20, 0, 0, 0), &speck, 25), 0);
}

#[test]
fn mjpeg_frames_decode_to_gray() {
    let img = image::GrayImage::from_pixel(16, 8, image::Luma([200u8]));
    let mut jpeg = Vec::new();
    image::codecs::jpeg::JpegEncoder::new_with_quality(&mut jpeg, 95)
        .encode_image(&img)
        .unwrap();
    let frame = doorcam::frame::FrameData::new(
        1,
        std::time::SystemTime::now(),
        jpeg,
        16,
        8,
        doorcam::frame::FrameFormat::Mjpeg,
    );
    let gray = doorcam::analyzer::mjpeg_to_gray(&frame).unwrap();
    assert_eq!((gray.width, gray.height), (16, 8));
    assert_eq!(gray.pixels.len(), 128);
    assert!(gray.pixels.iter().all(|&p| (p as i32 - 200).abs() <= 3));
}

#[test]
fn undecodable_mjpeg_is_a_processing_error() {
    let frame = doorcam::frame::FrameData::new(
        1,
        std::time::SystemTime::now(),
        vec![1, 2, 3, 4],
        16,
        8,
        doorcam::frame::FrameFormat::Mjpeg,
    );
    match doorcam::analyzer::mjpeg_to_gray(&frame) {
        Err(doorcam::error::AnalyzerError::FrameProcessing { details }) => {
            assert!(details.starts_with("MJPEG decode failed: "));
            assert!(details.len() > "MJPEG decode failed: ".len());
        }
        _ => panic!("expected a decode failure"),
    }
}

#[test]
fn analysis_loop_pacing() {
    let interval = 200_000_000u64;
    assert_eq!(analysis_pace(interval, interval), AnalysisPace { analyze: true, sleep_nanos: 10_000_000 });
    assert_eq!(analysis_pace(500_000_000, interval), AnalysisPace { analyze: true, sleep_nanos: 10_000_000 });
    assert_eq!(analysis_pace(0, interval), AnalysisPace { analyze: false, sleep_nanos: 50_000_000 });
    assert_eq!(analysis_pace(0, 1_000_000_000), AnalysisPace { analyze: false, sleep_nanos: 100_000_000 });
    assert_eq!(analysis_pace(199_999_997, interval), AnalysisPace { analyze: false, sleep_nanos: 0 });
}

#[test]
fn analyzer_listens_for_shutdown_and_camera_errors() {
    let shutdown = DoorcamEvent::ShutdownRequested { timestamp: SystemTime::now(), reason: "x".to_string() };
    assert_eq!(analyzer_event_response(&shutdown), AnalyzerEventResponse::Stop);
    let camera = DoorcamEvent::SystemError { component: "camera".to_string(), error: "gone".to_string() };
    assert_eq!(analyzer_event_response(&camera), AnalyzerEventResponse::WarnCameraError);
    let other = DoorcamEvent::SystemError { component: "display".to_string(), error: "gone".to_string() };
    assert_eq!(analyzer_event_response(&other), AnalyzerEventResponse::Ignore);
    let touch = DoorcamEvent::TouchDetected { timestamp: SystemTime::now() };
    assert_eq!(analyzer_event_response(&touch), AnalyzerEventResponse::Ignore);
}

#[test]
fn erosion_then_dilation_keeps_blocks_and_drops_specks() {
    let blank = GrayBuffer { width: 20, height: 20, pixels: vec![0; 400] };
    let mut block = vec![0u8; 400];
    for y in 5..15 {
        for x in 5..15 {
            block[y * 20 + x] = 255;
        }
    }
    let current = GrayBuffer { width: 20, height: 20, pixels: block };
    assert_eq!(motion_area(&blank, &current, 25), 100);
    let mut speck = vec![0u8; 400];
    speck[210] = 255;
    let current = GrayBuffer { width: 20, height: 20, pixels: speck };
    assert_eq!(motion_area(&blank, &current, 25), 0);
}
