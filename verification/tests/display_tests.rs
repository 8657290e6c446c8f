use doorcam::config::Rotation;
use doorcam::display::control::{backlight_power_value, display_command, DisplayCommand};
use doorcam::display::converter::DisplayConverter;
use doorcam::events::DoorcamEvent;
use std::time::SystemTime;

#[test]
fn display_test_rgb24_to_rgb565_conversion() {
    let rgb24_data = vec![
        255, 0, 0, // Red
        0, 255, 0, // Green
        0, 0, 255, // Blue
    ];

    let rgb565_data = DisplayConverter::rgb24_to_rgb565(&rgb24_data, 3, 1).unwrap();

    assert_eq!(rgb565_data.len(), 6);

    let red_pixel = ((rgb565_data[1] as u16) << 8) | (rgb565_data[0] as u16);
    assert_eq!(red_pixel & 0xF800, 0xF800);
}

#[test]
fn display_test_rgb24_to_rgb565_invalid_size() {
    let invalid_data = vec![255, 0];
    let result = DisplayConverter::rgb24_to_rgb565(&invalid_data, 1, 1);
    assert!(result.is_err());
}

#[test]
fn display_test_rgb565_cropping() {
    let src_data = vec![0u8; 4 * 4 * 2];

    let cropped_data = DisplayConverter::crop_rgb565(&src_data, 4, 4, 2, 2).unwrap();

    assert_eq!(cropped_data.len(), 8);
}

#[test]
fn tests_test_rgb24_to_rgb565_conversion() {
    let rgb24_data = vec![
        255, 0, 0, // Red
        0, 255, 0, // Green
        0, 0, 255, // Blue
    ];

    let rgb565_data = DisplayConverter::rgb24_to_rgb565(&rgb24_data, 3, 1).unwrap();

    assert_eq!(rgb565_data.len(), 6);

    let red_pixel = ((rgb565_data[1] as u16) << 8) | (rgb565_data[0] as u16);
    assert_eq!(red_pixel & 0xF800, 0xF800);
}

#[test]
fn tests_test_rgb24_to_rgb565_invalid_size() {
    let invalid_data = vec![255, 0];
    let result = DisplayConverter::rgb24_to_rgb565(&invalid_data, 1, 1);
    assert!(result.is_err());
}

#[test]
fn tests_test_rgb565_cropping() {
    let src_data = vec![0u8; 4 * 4 * 2];

    let cropped_data = DisplayConverter::crop_rgb565(&src_data, 4, 4, 2, 2).unwrap();

    assert_eq!(cropped_data.len(), 8);
}

#[test]
fn rgb565_values_of_primary_colours() {
    let data = DisplayConverter::rgb24_to_rgb565(&[255, 0, 0, 0, 255, 0, 0, 0, 255, 255, 255, 255], 4, 1).unwrap();
    assert_eq!(data, vec![0x00, 0xF8, 0xE0, 0x07, 0x1F, 0x00, 0xFF, 0xFF]);
}

#[test]
fn rgb24_size_error_message() {
    match DisplayConverter::rgb24_to_rgb565(&[1, 2, 3], 2, 1) {
        Err(e) => assert_eq!(
            e.to_string(),
            "Display error: Display format conversion failed: Invalid RGB24 data size: expected 6, got 3"
        ),
        Ok(_) => panic!("expected an error"),
    }
}

#[test]
fn center_crop_takes_the_middle() {
    // 4x4 image whose pixel (x, y) holds bytes [x, y].
    let mut src = Vec::new();
    for y in 0..4u8 {
        for x in 0..4u8 {
            src.push(x);
            src.push(y);
        }
    }
    let cropped = DisplayConverter::crop_rgb565(&src, 4, 4, 2, 2).unwrap();
    assert_eq!(cropped, vec![1, 1, 2, 1, 1, 2, 2, 2]);
}

#[test]
fn placeholder_has_two_bytes_per_pixel() {
    let data = DisplayConverter::create_placeholder_rgb565(320, 240).unwrap();
    assert_eq!(data.len(), 320 * 240 * 2);
}

#[test]
fn rotation_keeps_the_data() {
    let data = vec![1u8, 2, 3, 4];
    let rotated = DisplayConverter::apply_rotation(&data, 2, 1, Rotation::Rotate90).unwrap();
    assert_eq!(rotated, data);
}

#[test]
fn display_commands_follow_events() {
    let now = SystemTime::now();
    assert_eq!(
        display_command(&DoorcamEvent::TouchDetected { timestamp: now }, 30),
        DisplayCommand::Activate { seconds: 30 }
    );
    assert_eq!(
        display_command(&DoorcamEvent::MotionDetected { contour_area_bits: 0, timestamp: now }, 45),
        DisplayCommand::Activate { seconds: 45 }
    );
    assert_eq!(
        display_command(&DoorcamEvent::DisplayActivate { timestamp: now, duration_seconds: 7 }, 30),
        DisplayCommand::Activate { seconds: 7 }
    );
    assert_eq!(
        display_command(&DoorcamEvent::DisplayDeactivate { timestamp: now }, 30),
        DisplayCommand::Deactivate
    );
    assert_eq!(
        display_command(&DoorcamEvent::CaptureStarted { event_id: "e".to_string() }, 30),
        DisplayCommand::Ignore
    );
}

#[test]
fn backlight_power_values() {
    assert_eq!(backlight_power_value(true), "0");
    assert_eq!(backlight_power_value(false), "1");
}
