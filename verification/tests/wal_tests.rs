use doorcam::wal::WalReader;
use doorcam::error::DoorcamError;
use doorcam::frame::{FrameData, FrameFormat};
use doorcam::wal::{
    encode_header, encode_record, frame_count_field, parse_header, parse_wal, read_all_frames, record_to_frame,
    WalFormatError, WalFrameReader, WalRecord, WalWriter,
};
use std::time::{Duration, SystemTime, UNIX_EPOCH};

fn write_wal(frames: &[(u64, u64, Vec<u8>)], fps: u32) -> Vec<u8> {
    let mut writer = WalWriter::new("20240101_120000_123".to_string(), fps);
    for (ts, id, data) in frames {
        writer.append_record(*ts, *id, data);
    }
    let mut bytes = writer.take_pending();
    let (rest, count_field) = writer.close();
    bytes.extend_from_slice(&rest);
    bytes[24..28].copy_from_slice(&count_field);
    bytes
}

#[test]
fn header_layout() {
    let h = encode_header("abc", 15);
    assert_eq!(h.len(), 32);
    assert_eq!(&h[0..4], b"DCAM");
    assert_eq!(&h[4..8], &2u32.to_le_bytes());
    assert_eq!(&h[8..11], b"abc");
    assert_eq!(&h[11..24], &[0u8; 13]);
    assert_eq!(&h[28..32], &15u32.to_le_bytes());
    let info = parse_header(&h).unwrap();
    assert_eq!((info.version, info.frame_count, info.fps), (2, 0, 15));
    assert_eq!(frame_count_field(7), 7u32.to_le_bytes().to_vec());
}

#[test]
fn record_layout() {
    let r = encode_record(5, 9, &[1, 2, 3]);
    let mut expected = 5u64.to_le_bytes().to_vec();
    expected.extend_from_slice(&9u64.to_le_bytes());
    expected.extend_from_slice(&3u32.to_le_bytes());
    expected.extend_from_slice(&[1, 2, 3]);
    assert_eq!(r, expected);
}

#[test]
fn written_wal_reads_back() {
    let bytes = write_wal(&[(1_000, 1, vec![0xff, 0xd8]), (2_000, 2, vec![7; 10])], 30);
    let (header, records) = parse_wal(&bytes).unwrap();
    assert_eq!(header.frame_count, 2);
    assert_eq!(header.fps, 30);
    assert_eq!(records.len(), 2);
    assert_eq!(records[0].frame_id, 1);
    assert_eq!(records[1].timestamp_nanos, 2_000);
    assert_eq!(records[1].data, vec![7; 10]);

    let frames = read_all_frames(&bytes).unwrap();
    assert_eq!(frames.len(), 2);
    assert_eq!(frames[0].format, FrameFormat::Mjpeg);
    assert_eq!(frames[0].width, 0);
    assert_eq!(*frames[1].data, vec![7; 10]);
    assert_eq!(frames[0].timestamp, UNIX_EPOCH + Duration::from_nanos(1_000));
}

#[test]
fn streaming_reader_reads_frame_by_frame() {
    let bytes = write_wal(&[(10, 4, vec![1]), (20, 5, vec![2, 3])], 0);
    let mut reader = WalFrameReader::open(bytes).unwrap();
    assert_eq!(reader.frame_count(), 2);
    assert_eq!(reader.fps(), 0);
    assert_eq!(reader.next_frame().unwrap().unwrap().id, 4);
    assert_eq!(reader.next_frame().unwrap().unwrap().id, 5);
    assert!(reader.next_frame().unwrap().is_none());
}

#[test]
fn bad_magic_is_rejected() {
    let mut bytes = encode_header("x", 1);
    bytes[0] = b'X';
    assert_eq!(parse_header(&bytes).unwrap_err(), WalFormatError::BadMagic);
    match WalFrameReader::open(bytes) {
        Err(DoorcamError::Component { component, message }) => {
            assert_eq!(component, "wal");
            assert_eq!(message, "Invalid WAL file: bad magic number");
        }
        _ => panic!("expected a magic number error"),
    }
}

#[test]
fn unsupported_version_is_rejected() {
    let mut bytes = encode_header("x", 1);
    bytes[4..8].copy_from_slice(&3u32.to_le_bytes());
    match WalFrameReader::open(bytes) {
        Err(DoorcamError::Component { message, .. }) => assert_eq!(message, "Unsupported WAL version: 3"),
        _ => panic!("expected a version error"),
    }
}

#[test]
fn version_one_has_no_fps() {
    let mut bytes = encode_header("x", 25);
    bytes[4..8].copy_from_slice(&1u32.to_le_bytes());
    let info = parse_header(&bytes).unwrap();
    assert_eq!(info.version, 1);
    assert_eq!(info.fps, 0);
}

#[test]
fn truncated_files() {
    assert_eq!(parse_header(&[0u8; 10]).unwrap_err(), WalFormatError::TruncatedHeader);
    let mut bytes = write_wal(&[(10, 4, vec![1, 2, 3])], 0);
    bytes.pop();
    assert_eq!(parse_wal(&bytes).unwrap_err(), WalFormatError::TruncatedData);
    let mut partial_timestamp = write_wal(&[], 0);
    partial_timestamp.extend_from_slice(&[1, 2, 3]);
    assert_eq!(parse_wal(&partial_timestamp).unwrap().1.len(), 0);
    let mut partial_id = write_wal(&[], 0);
    partial_id.extend_from_slice(&[0u8; 12]);
    assert_eq!(parse_wal(&partial_id).unwrap_err(), WalFormatError::TruncatedFrameId);
    match read_all_frames(&partial_id) {
        Err(DoorcamError::Component { message, .. }) => {
            assert_eq!(message, "Failed to read frame ID: early eof")
        }
        _ => panic!("expected a frame id error"),
    }
}

#[test]
fn writer_counts_frames_and_flushes_at_threshold() {
    let mut writer = WalWriter::new("e".to_string(), 30);
    let frame = FrameData::new(3, SystemTime::now(), vec![0u8; 16], 4, 2, FrameFormat::Yuyv);
    assert!(!writer.append_frame(&frame));
    assert_eq!(writer.frame_count(), 1);
    assert!(writer.append_record(0, 1, &vec![0u8; 2_000_000]));
}

#[test]
fn record_becomes_an_mjpeg_frame() {
    let f = record_to_frame(WalRecord { timestamp_nanos: 5, frame_id: 8, data: vec![1, 2] });
    assert_eq!(f.id, 8);
    assert_eq!(f.height, 0);
    assert_eq!(*f.data, vec![1, 2]);
    assert_eq!(f.timestamp, UNIX_EPOCH + Duration::from_nanos(5));
}

#[test]
fn wal_reader_reads_all_frames_of_a_file() {
    let reader = WalReader::new(std::path::PathBuf::from("/tmp/x.wal"));
    assert_eq!(reader.path(), &std::path::PathBuf::from("/tmp/x.wal"));
    let bytes = write_wal(&[(1, 2, vec![3])], 30);
    let frames = reader.read_all_frames(&bytes).unwrap();
    assert_eq!(frames.len(), 1);
    assert_eq!(frames[0].id, 2);
}

#[test]
fn written_frames_read_back_with_their_timestamps() {
    let mut writer = WalWriter::new("test-event-123".to_string(), 30);
    let mut written = Vec::new();
    for i in 0..10u64 {
        let frame = FrameData::new(i, SystemTime::now(), vec![0u8; 1000], 640, 480, FrameFormat::Mjpeg);
        writer.append_frame(&frame);
        written.push(frame);
    }
    let mut bytes = writer.take_pending();
    let (rest, count_field) = writer.close();
    bytes.extend_from_slice(&rest);
    bytes[24..28].copy_from_slice(&count_field);
    let frames = read_all_frames(&bytes).unwrap();
    assert_eq!(frames.len(), 10);
    for (read, original) in frames.iter().zip(written.iter()) {
        assert_eq!(read.id, original.id);
        assert_eq!(*read.data, *original.data);
        assert_eq!(read.timestamp, original.timestamp);
        assert_eq!(read.format, FrameFormat::Mjpeg);
        assert_eq!((read.width, read.height), (0, 0));
    }
}

#[test]
fn times_before_the_epoch_are_kept_as_zero() {
    let before = UNIX_EPOCH - Duration::from_secs(5);
    assert_eq!(doorcam::wal::timestamp_nanos(&before), 0);
    let t = UNIX_EPOCH + Duration::from_nanos(1_700_000_000_123_456_789);
    assert_eq!(doorcam::wal::timestamp_nanos(&t), 1_700_000_000_123_456_789);
}
