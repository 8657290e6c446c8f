use doorcam::logging::{log_format, log_level_for_flags, LogFormat};
use doorcam::wal_export::{
    buffer_timing, buffer_timings, event_id_from_stem, frame_span, ExportActions, LAST_FRAME_DURATION_NS,
};

#[test]
fn no_flags_means_every_output() {
    assert_eq!(
        ExportActions::from_flags(false, false, false),
        ExportActions { images: true, video: true, metadata: true }
    );
    assert_eq!(
        ExportActions::from_flags(true, false, false),
        ExportActions { images: true, video: false, metadata: false }
    );
}

#[test]
fn event_id_is_the_file_stem() {
    assert_eq!(event_id_from_stem(Some("20240101_120000_123")), "20240101_120000_123");
    assert_eq!(event_id_from_stem(None), "unknown");
}

#[test]
fn frame_timings_follow_the_stamps() {
    assert_eq!(buffer_timing(100, 150, Some(190)), (50, 40));
    assert_eq!(buffer_timing(100, 150, None), (50, LAST_FRAME_DURATION_NS));
    assert_eq!(buffer_timing(100, 90, Some(80)), (0, 0));
    assert_eq!(
        buffer_timings(&vec![1_000, 1_040, 1_100]),
        vec![(0, 40), (40, 60), (100, 33_333_333)]
    );
    assert!(buffer_timings(&vec![]).is_empty());
}

#[test]
fn span_of_frames() {
    assert_eq!(frame_span(&vec![5, 6, 9]), (3, Some(5), Some(9)));
    assert_eq!(frame_span(&vec![]), (0, None, None));
}

#[test]
fn logging_flags() {
    assert_eq!(log_level_for_flags(true, true, true), "debug");
    assert_eq!(log_level_for_flags(false, true, true), "info");
    assert_eq!(log_level_for_flags(false, false, true), "error");
    assert_eq!(log_level_for_flags(false, false, false), "warn");
    assert_eq!(log_format(Some("json")), LogFormat::Json);
    assert_eq!(log_format(Some("compact")), LogFormat::Compact);
    assert_eq!(log_format(None), LogFormat::Pretty);
    assert_eq!(log_format(Some("xml")), LogFormat::Plain);
}
