//! The write-ahead log (WAL) file format in which a capture event's frames
//! are stored before encoding.
//!
//! A WAL file is a 32-byte header followed by frame records:
//!
//! | bytes  | header field                                   |
//! |--------|------------------------------------------------|
//! | 0..4   | magic `DCAM`                                   |
//! | 4..8   | version (little-endian u32, 2 when written)    |
//! | 8..24  | first 16 bytes of the event id, zero padded    |
//! | 24..28 | frame count (written as 0, patched on close)   |
//! | 28..32 | camera fps (0 when unknown; absent in v1)      |
//!
//! Each record is a little-endian u64 timestamp in nanoseconds since the
//! Unix epoch, a u64 frame id, a u32 data length and the data bytes.
use crate::error::DoorcamError;
use crate::frame::{FrameData, FrameFormat};
use crate::opaque::{
    duration_from_nanos, duration_nanos, duration_of_nanos, epoch_plus, nanos_of, since_epoch, time_after_epoch,
    time_since_epoch,
};
use crate::text::{decimal, push_decimal};
use std::time::SystemTime;
use vstd::bytes::*;
use vstd::prelude::*;
use vstd::slice::*;
use vstd::utf8::encode_utf8;

verus! {

/// Size of the WAL header in bytes.
pub const WAL_HEADER_SIZE: usize = 32;

/// Version written into new WAL files.
pub const WAL_VERSION: u32 = 2;

/// Size of the fixed part of a frame record (timestamp, id, length).
pub const WAL_RECORD_PREFIX_SIZE: usize = 20;

/// Buffered bytes above which a writer asks to be flushed.
pub const WAL_FLUSH_THRESHOLD: usize = 2_000_000;

/// Offset of the frame count field in the header.
pub const WAL_FRAME_COUNT_OFFSET: usize = 24;

/// The magic bytes "DCAM".
pub open spec fn wal_magic() -> Seq<u8> {
    seq![0x44u8, 0x43u8, 0x41u8, 0x4du8]
}

/// The 16-byte event id field: the first 16 bytes of the id, zero padded.
pub open spec fn event_id_field(id: Seq<u8>) -> Seq<u8> {
    if id.len() >= 16 {
        id.take(16)
    } else {
        id + Seq::new((16 - id.len()) as nat, |i: int| 0u8)
    }
}

/// The header bytes for an event id, a frame count and an fps.
pub open spec fn header_bytes(id: Seq<u8>, frame_count: u32, fps: u32) -> Seq<u8> {
    wal_magic() + spec_u32_to_le_bytes(WAL_VERSION) + event_id_field(id) + spec_u32_to_le_bytes(
        frame_count,
    ) + spec_u32_to_le_bytes(fps)
}

/// What a WAL header says.
#[derive(Debug, Clone, Copy, PartialEq, Eq)]
pub struct WalHeaderInfo {
    /// Format version (1 or 2).
    pub version: u32,
    /// Number of frames recorded when the file was closed.
    pub frame_count: u32,
    /// Camera fps (0 when unknown).
    pub fps: u32,
}

/// Why bytes are not a well-formed WAL.
#[derive(Debug, Clone, Copy, PartialEq, Eq)]
pub enum WalFormatError {
    /// Fewer than 32 header bytes.
    TruncatedHeader,
    /// The first four bytes are not `DCAM`.
    BadMagic,
    /// The version is neither 1 nor 2.
    UnsupportedVersion { version: u32 },
    /// A record ends inside its frame id.
    TruncatedFrameId,
    /// A record ends inside its data length.
    TruncatedLength,
    /// A record ends inside its data.
    TruncatedData,
}

/// The meaning of header bytes.
pub open spec fn spec_parse_header(b: Seq<u8>) -> Result<WalHeaderInfo, WalFormatError> {
    if b.len() < 32 {
        Err(WalFormatError::TruncatedHeader)
    } else if b.take(4) != wal_magic() {
        Err(WalFormatError::BadMagic)
    } else {
        let version = spec_u32_from_le_bytes(b.subrange(4, 8));
        if version != 1 && version != 2 {
            Err(WalFormatError::UnsupportedVersion { version })
        } else {
            Ok(
                WalHeaderInfo {
                    version,
                    frame_count: spec_u32_from_le_bytes(b.subrange(24, 28)),
                    fps: if version >= 2 {
                        spec_u32_from_le_bytes(b.subrange(28, 32))
                    } else {
                        0
                    },
                },
            )
        }
    }
}

/// The bytes of an event id: its UTF-8 encoding.
pub open spec fn event_id_bytes(event_id: Seq<char>) -> Seq<u8> {
    encode_utf8(event_id)
}

/// The encoded header of a new WAL file (frame count 0).
pub fn encode_header(event_id: &str, fps: u32) -> (h: Vec<u8>)
    ensures
        h@ == header_bytes(event_id_bytes(event_id@), 0, fps),
        h@.len() == WAL_HEADER_SIZE,
{
    let id = event_id.as_bytes();
    let mut h: Vec<u8> = Vec::with_capacity(WAL_HEADER_SIZE);
    h.push(0x44u8);
    h.push(0x43u8);
    h.push(0x41u8);
    h.push(0x4du8);
    let mut v = u32_to_le_bytes(WAL_VERSION);
    h.append(&mut v);
    let id_len = if id.len() < 16 { id.len() } else { 16 };
    let mut i: usize = 0;
    while i < 16
        invariant
            id@ == event_id_bytes(event_id@),
            id_len == (if id@.len() < 16 { id@.len() } else { 16 }),
            i <= 16,
            h@.len() == 8 + i,
            h@.subrange(0, 8) == wal_magic() + spec_u32_to_le_bytes(WAL_VERSION),
            forall|j: int| 0 <= j < i ==> h@[8 + j] == event_id_field(id@)[j],
        decreases 16 - i,
    {
        let ghost before = h@;
        if i < id_len {
            h.push(id[i]);
        } else {
            h.push(0u8);
        }
        assert(h@.subrange(0, 8) =~= before.subrange(0, 8));
        i = i + 1;
    }
    let mut c = u32_to_le_bytes(0);
    h.append(&mut c);
    let mut f = u32_to_le_bytes(fps);
    h.append(&mut f);
    proof {
        lemma_auto_spec_u32_to_from_le_bytes();
        assert(event_id_field(id@).len() == 16);
        let expected = header_bytes(id@, 0, fps);
        assert(h@ =~= expected) by {
            assert forall|j: int| 0 <= j < 32 implies h@[j] == expected[j] by {
                if j < 8 {
                    assert(h@[j] == h@.subrange(0, 8)[j]);
                } else if j < 24 {
                    assert(h@[j] == event_id_field(id@)[j - 8]);
                }
            }
        }
    }
    h
}

/// The frame count field of a closed WAL: the four bytes written at offset
/// `WAL_FRAME_COUNT_OFFSET` when the writer closes.
pub fn frame_count_field(frame_count: u32) -> (b: Vec<u8>)
    ensures
        b@ == spec_u32_to_le_bytes(frame_count),
        b@.len() == 4,
{
    u32_to_le_bytes(frame_count)
}

/// Overwrite `b` at `offset` with `patch`.
pub open spec fn patch_bytes(b: Seq<u8>, offset: int, patch: Seq<u8>) -> Seq<u8> {
    b.take(offset) + patch + b.skip(offset + patch.len())
}

/// Patching the frame count of a freshly written header gives the header with
/// that frame count.
pub proof fn lemma_patch_frame_count(id: Seq<u8>, fps: u32, count: u32)
    ensures
        patch_bytes(header_bytes(id, 0, fps), 24, spec_u32_to_le_bytes(count)) == header_bytes(
            id,
            count,
            fps,
        ),
{
    lemma_auto_spec_u32_to_from_le_bytes();
    let a = patch_bytes(header_bytes(id, 0, fps), 24, spec_u32_to_le_bytes(count));
    let b = header_bytes(id, count, fps);
    assert(event_id_field(id).len() == 16);
    assert(a =~= b);
}

/// Read the header at the start of `bytes`.
pub fn parse_header(bytes: &[u8]) -> (r: Result<WalHeaderInfo, WalFormatError>)
    ensures
        r == spec_parse_header(bytes@),
{
    if bytes.len() < WAL_HEADER_SIZE {
        return Err(WalFormatError::TruncatedHeader);
    }
    if !(bytes[0] == 0x44u8 && bytes[1] == 0x43u8 && bytes[2] == 0x41u8 && bytes[3] == 0x4du8) {
        proof {
            if bytes@.take(4) == wal_magic() {
                assert(bytes@.take(4)[0] == bytes@[0]);
                assert(bytes@.take(4)[1] == bytes@[1]);
                assert(bytes@.take(4)[2] == bytes@[2]);
                assert(bytes@.take(4)[3] == bytes@[3]);
            }
        }
        return Err(WalFormatError::BadMagic);
    }
    assert(bytes@.take(4) =~= wal_magic());
    let version = u32_from_le_bytes(slice_subrange(bytes, 4, 8));
    if version != 1 && version != WAL_VERSION {
        return Err(WalFormatError::UnsupportedVersion { version });
    }
    let frame_count = u32_from_le_bytes(slice_subrange(bytes, 24, 28));
    let fps = if version >= 2 {
        u32_from_le_bytes(slice_subrange(bytes, 28, 32))
    } else {
        0
    };
    Ok(WalHeaderInfo { version, frame_count, fps })
}

/// Reading back a header that a writer wrote and closed with `count` frames
/// gives version 2, that frame count and the writer's fps.
pub proof fn lemma_header_round_trip(id: Seq<u8>, count: u32, fps: u32)
    ensures
        spec_parse_header(header_bytes(id, count, fps)) == Ok::<WalHeaderInfo, WalFormatError>(
            WalHeaderInfo { version: WAL_VERSION, frame_count: count, fps },
        ),
{
    lemma_auto_spec_u32_to_from_le_bytes();
    let h = header_bytes(id, count, fps);
    assert(event_id_field(id).len() == 16);
    assert(h.take(4) =~= wal_magic());
    assert(h.subrange(4, 8) =~= spec_u32_to_le_bytes(WAL_VERSION));
    assert(h.subrange(24, 28) =~= spec_u32_to_le_bytes(count));
    assert(h.subrange(28, 32) =~= spec_u32_to_le_bytes(fps));
}


/// A frame record as plain values: timestamp (ns since the Unix epoch),
/// frame id and data.
pub type RecordView = (u64, u64, Seq<u8>);

/// The length field that a record stores for data of length `n`: the length
/// as a u32 (only the low 32 bits of a longer length survive).
pub open spec fn length_field(n: nat) -> u32 {
    (n % 0x1_0000_0000) as u32
}

/// The bytes of one frame record.
pub open spec fn record_bytes(r: RecordView) -> Seq<u8> {
    spec_u64_to_le_bytes(r.0) + spec_u64_to_le_bytes(r.1) + spec_u32_to_le_bytes(
        length_field(r.2.len()),
    ) + r.2
}

/// The bytes of a sequence of frame records, one after the other.
pub open spec fn records_bytes(rs: Seq<RecordView>) -> Seq<u8>
    decreases rs.len(),
{
    if rs.len() == 0 {
        Seq::empty()
    } else {
        record_bytes(rs[0]) + records_bytes(rs.drop_first())
    }
}

/// The first record of a byte stream (what follows the header) and its
/// length in bytes; none when the stream ends before a complete timestamp.
pub open spec fn spec_next_record(s: Seq<u8>) -> Result<Option<(RecordView, int)>, WalFormatError> {
    if s.len() < 8 {
        Ok(None)
    } else if s.len() < 16 {
        Err(WalFormatError::TruncatedFrameId)
    } else if s.len() < 20 {
        Err(WalFormatError::TruncatedLength)
    } else {
        let n = spec_u32_from_le_bytes(s.subrange(16, 20));
        if s.len() - 20 < n {
            Err(WalFormatError::TruncatedData)
        } else {
            Ok(
                Some(
                    (
                        (
                            spec_u64_from_le_bytes(s.take(8)),
                            spec_u64_from_le_bytes(s.subrange(8, 16)),
                            s.subrange(20, 20 + n),
                        ),
                        20 + n,
                    ),
                ),
            )
        }
    }
}

/// The records that a byte stream (what follows the header) holds.
/// A stream that ends before a record's timestamp is complete ends the log;
/// a record cut short anywhere else is an error.
pub open spec fn spec_parse_records(s: Seq<u8>) -> Result<Seq<RecordView>, WalFormatError>
    decreases s.len(),
{
    if s.len() < 8 {
        Ok(Seq::empty())
    } else if s.len() < 16 {
        Err(WalFormatError::TruncatedFrameId)
    } else if s.len() < 20 {
        Err(WalFormatError::TruncatedLength)
    } else {
        let n = spec_u32_from_le_bytes(s.subrange(16, 20));
        if s.len() - 20 < n {
            Err(WalFormatError::TruncatedData)
        } else {
            let rec: RecordView = (
                spec_u64_from_le_bytes(s.take(8)),
                spec_u64_from_le_bytes(s.subrange(8, 16)),
                s.subrange(20, 20 + n),
            );
            match spec_parse_records(s.skip(20 + n)) {
                Ok(rest) => Ok(seq![rec] + rest),
                Err(e) => Err(e),
            }
        }
    }
}

/// The meaning of a whole WAL file: its header and its records.
pub open spec fn spec_parse_wal(b: Seq<u8>) -> Result<(WalHeaderInfo, Seq<RecordView>), WalFormatError> {
    match spec_parse_header(b) {
        Err(e) => Err(e),
        Ok(h) => match spec_parse_records(b.skip(32)) {
            Ok(rs) => Ok((h, rs)),
            Err(e) => Err(e),
        },
    }
}

/// Every record's data fits the u32 length field.
pub open spec fn lengths_fit(rs: Seq<RecordView>) -> bool {
    forall|i: int| 0 <= i < rs.len() ==> (#[trigger] rs[i]).2.len() <= u32::MAX
}

/// Appending a record appends its bytes.
pub proof fn lemma_records_bytes_push(rs: Seq<RecordView>, r: RecordView)
    ensures
        records_bytes(rs.push(r)) == records_bytes(rs) + record_bytes(r),
    decreases rs.len(),
{
    if rs.len() == 0 {
        assert(rs.push(r).drop_first() =~= Seq::<RecordView>::empty());
        assert(records_bytes(Seq::<RecordView>::empty()) =~= Seq::<u8>::empty());
        assert(records_bytes(rs) =~= Seq::<u8>::empty());
        assert(records_bytes(rs.push(r)) =~= record_bytes(r));
    } else {
        assert(rs.push(r).drop_first() =~= rs.drop_first().push(r));
        lemma_records_bytes_push(rs.drop_first(), r);
        assert(records_bytes(rs.push(r)) =~= records_bytes(rs) + record_bytes(r));
    }
}

/// Reading back the bytes of records gives the records, when every record's
/// data length fits in 32 bits.
pub proof fn lemma_records_round_trip(rs: Seq<RecordView>)
    requires
        lengths_fit(rs),
    ensures
        spec_parse_records(records_bytes(rs)) == Ok::<Seq<RecordView>, WalFormatError>(rs),
    decreases rs.len(),
{
    if rs.len() == 0 {
        assert(spec_parse_records(records_bytes(rs)) == Ok::<Seq<RecordView>, WalFormatError>(Seq::empty()));
        assert(rs =~= Seq::<RecordView>::empty());
    } else {
        lemma_auto_spec_u32_to_from_le_bytes();
        lemma_auto_spec_u64_to_from_le_bytes();
        let r = rs[0];
        let rest = rs.drop_first();
        assert(lengths_fit(rest)) by {
            assert forall|i: int| 0 <= i < rest.len() implies (#[trigger] rest[i]).2.len() <= u32::MAX by {
                assert(rest[i] == rs[i + 1]);
            }
        }
        lemma_records_round_trip(rest);
        let s = records_bytes(rs);
        let n = r.2.len();
        assert(rs[0].2.len() <= u32::MAX);
        assert(length_field(n) == n);
        let a = spec_u64_to_le_bytes(r.0);
        let b = spec_u64_to_le_bytes(r.1);
        let c = spec_u32_to_le_bytes(length_field(n));
        assert(s == a + b + c + r.2 + records_bytes(rest));
        assert(s.take(8) =~= a);
        assert(s.subrange(8, 16) =~= b);
        assert(s.subrange(16, 20) =~= c);
        assert(s.subrange(20, 20 + n as int) =~= r.2);
        assert(s.skip(20 + n as int) =~= records_bytes(rest));
        assert(seq![r] + rest =~= rs);
    }
}

/// Reading back a closed WAL gives the header that was written and all the
/// records that were appended, when every record's data length fits in
/// 32 bits.
pub proof fn lemma_wal_round_trip(id: Seq<u8>, fps: u32, rs: Seq<RecordView>)
    requires
        lengths_fit(rs),
        rs.len() <= u32::MAX,
    ensures
        spec_parse_wal(header_bytes(id, rs.len() as u32, fps) + records_bytes(rs)) == Ok::<
            (WalHeaderInfo, Seq<RecordView>),
            WalFormatError,
        >((WalHeaderInfo { version: WAL_VERSION, frame_count: rs.len() as u32, fps }, rs)),
{
    let h = header_bytes(id, rs.len() as u32, fps);
    let b = h + records_bytes(rs);
    lemma_auto_spec_u32_to_from_le_bytes();
    assert(event_id_field(id).len() == 16);
    assert(h.len() == 32);
    assert(b.take(4) =~= h.take(4));
    assert(b.subrange(4, 8) =~= h.subrange(4, 8));
    assert(b.subrange(24, 28) =~= h.subrange(24, 28));
    assert(b.subrange(28, 32) =~= h.subrange(28, 32));
    lemma_header_round_trip(id, rs.len() as u32, fps);
    assert(b.skip(32) =~= records_bytes(rs));
    lemma_records_round_trip(rs);
}

/// One frame record of a WAL.
#[derive(Debug, Clone)]
pub struct WalRecord {
    /// Capture time in nanoseconds since the Unix epoch.
    pub timestamp_nanos: u64,
    /// Frame identifier.
    pub frame_id: u64,
    /// Frame data (JPEG bytes).
    pub data: Vec<u8>,
}

impl View for WalRecord {
    type V = RecordView;

    open spec fn view(&self) -> RecordView {
        (self.timestamp_nanos, self.frame_id, self.data@)
    }
}

/// The records of a vector, as plain values.
pub open spec fn record_views(v: Seq<WalRecord>) -> Seq<RecordView> {
    v.map_values(|r: WalRecord| r@)
}

/// Encode one frame record.
pub fn encode_record(timestamp_nanos: u64, frame_id: u64, data: &[u8]) -> (b: Vec<u8>)
    ensures
        b@ == record_bytes((timestamp_nanos, frame_id, data@)),
{
    let mut b = u64_to_le_bytes(timestamp_nanos);
    let mut id = u64_to_le_bytes(frame_id);
    b.append(&mut id);
    let len32 = length_to_u32(data.len());
    let mut l = u32_to_le_bytes(len32);
    b.append(&mut l);
    let mut d = slice_to_vec(data);
    b.append(&mut d);
    b
}

/// The low 32 bits of a length.
fn length_to_u32(n: usize) -> (r: u32)
    ensures
        r == length_field(n as nat),
{
    let m: u64 = (n as u64) & 0xffff_ffffu64;
    assert(m == (n as u64) % 0x1_0000_0000) by (bit_vector)
        requires m == (n as u64) & 0xffff_ffffu64;
    assert(n as u64 == n);
    m as u32
}

/// Read one record at position `pos` of `bytes`: `None` at the end of the
/// log, or the record and the position after it.
pub fn parse_record_at(bytes: &[u8], pos: usize) -> (r: Result<Option<(WalRecord, usize)>, WalFormatError>)
    requires
        pos <= bytes@.len(),
    ensures
        match r {
            Ok(None) => spec_next_record(bytes@.skip(pos as int)) == Ok::<Option<(RecordView, int)>, WalFormatError>(None),
            Ok(Some((rec, next))) => spec_next_record(bytes@.skip(pos as int)) == Ok::<Option<(RecordView, int)>, WalFormatError>(
                Some((rec@, next - pos)),
            ),
            Err(e) => spec_next_record(bytes@.skip(pos as int)) == Err::<Option<(RecordView, int)>, WalFormatError>(e),
        },
        ({
            let s = bytes@.skip(pos as int);
            match r {
                Ok(None) => s.len() < 8,
                Ok(Some((rec, next))) => {
                    &&& 8 <= s.len()
                    &&& pos < next <= bytes@.len()
                    &&& spec_parse_records(s) matches Ok(rs) ==> rs.len() > 0 && rs[0] == rec@
                    &&& spec_parse_records(s) == match spec_parse_records(bytes@.skip(next as int)) {
                        Ok(rest) => Ok(seq![rec@] + rest),
                        Err(e) => Err(e),
                    }
                },
                Err(e) => spec_parse_records(s) == Err::<Seq<RecordView>, WalFormatError>(e),
            }
        }),
{
    let ghost s = bytes@.skip(pos as int);
    let remaining = bytes.len() - pos;
    if remaining < 8 {
        return Ok(None);
    }
    if remaining < 16 {
        return Err(WalFormatError::TruncatedFrameId);
    }
    if remaining < 20 {
        return Err(WalFormatError::TruncatedLength);
    }
    let ts = u64_from_le_bytes(slice_subrange(bytes, pos, pos + 8));
    let id = u64_from_le_bytes(slice_subrange(bytes, pos + 8, pos + 16));
    let n = u32_from_le_bytes(slice_subrange(bytes, pos + 16, pos + 20));
    assert(bytes@.subrange(pos as int, pos + 8) =~= s.take(8));
    assert(bytes@.subrange(pos + 8, pos + 16) =~= s.subrange(8, 16));
    assert(bytes@.subrange(pos + 16, pos + 20) =~= s.subrange(16, 20));
    if remaining - 20 < n as usize {
        return Err(WalFormatError::TruncatedData);
    }
    let end = pos + 20 + n as usize;
    let data = slice_to_vec(slice_subrange(bytes, pos + 20, end));
    assert(bytes@.subrange(pos + 20, end as int) =~= s.subrange(20, 20 + n));
    assert(bytes@.skip(end as int) =~= s.skip(20 + n));
    let rec = WalRecord { timestamp_nanos: ts, frame_id: id, data };
    Ok(Some((rec, end)))
}

/// Read all the records of `bytes` from position `start` to the end of the log.
pub fn parse_records(bytes: &[u8], start: usize) -> (r: Result<Vec<WalRecord>, WalFormatError>)
    requires
        start <= bytes@.len(),
    ensures
        match r {
            Ok(v) => spec_parse_records(bytes@.skip(start as int)) == Ok::<Seq<RecordView>, WalFormatError>(record_views(v@)),
            Err(e) => spec_parse_records(bytes@.skip(start as int)) == Err::<Seq<RecordView>, WalFormatError>(e),
        },
{
    let mut out: Vec<WalRecord> = Vec::new();
    let mut pos = start;
    loop
        invariant
            start <= pos <= bytes@.len(),
            spec_parse_records(bytes@.skip(start as int)) == match spec_parse_records(bytes@.skip(pos as int)) {
                Ok(rest) => Ok(record_views(out@) + rest),
                Err(e) => Err(e),
            },
        decreases bytes@.len() - pos,
    {
        match parse_record_at(bytes, pos) {
            Ok(None) => {
                assert(spec_parse_records(bytes@.skip(pos as int)) == Ok::<Seq<RecordView>, WalFormatError>(Seq::empty()));
                assert(record_views(out@) + Seq::<RecordView>::empty() =~= record_views(out@));
                return Ok(out);
            },
            Ok(Some((rec, next))) => {
                let ghost before = out@;
                let ghost rv = rec@;
                out.push(rec);
                proof {
                    assert(record_views(out@) =~= record_views(before).push(rv));
                    match spec_parse_records(bytes@.skip(next as int)) {
                        Ok(rest) => {
                            assert(record_views(before) + (seq![rv] + rest) =~= record_views(out@) + rest);
                        },
                        Err(e) => {},
                    }
                }
                pos = next;
            },
            Err(e) => {
                return Err(e);
            },
        }
    }
}

/// Read a whole WAL file: its header and all its records.
pub fn parse_wal(bytes: &[u8]) -> (r: Result<(WalHeaderInfo, Vec<WalRecord>), WalFormatError>)
    ensures
        match r {
            Ok((h, v)) => spec_parse_wal(bytes@) == Ok::<(WalHeaderInfo, Seq<RecordView>), WalFormatError>((h, record_views(v@))),
            Err(e) => spec_parse_wal(bytes@) == Err::<(WalHeaderInfo, Seq<RecordView>), WalFormatError>(e),
        },
{
    let h = parse_header(bytes)?;
    let v = parse_records(bytes, WAL_HEADER_SIZE)?;
    Ok((h, v))
}


/// A WAL writer: the bytes of a capture event's WAL, produced as frames are
/// appended and handed out in pieces for the file.
///
/// The bytes handed out so far followed by the pending bytes are always the
/// header with frame count 0 followed by the records appended so far.
pub struct WalWriter {
    event_id: String,
    fps: u32,
    frame_count: u32,
    buffer: Vec<u8>,
    written: Ghost<Seq<u8>>,
    records: Ghost<Seq<RecordView>>,
}

impl WalWriter {
    /// The event id.
    pub closed spec fn spec_event_id(&self) -> Seq<char> {
        self.event_id@
    }

    /// The camera fps recorded in the header.
    pub closed spec fn spec_fps(&self) -> u32 {
        self.fps
    }

    /// Bytes already handed out for the file.
    pub closed spec fn written(&self) -> Seq<u8> {
        self.written@
    }

    /// Bytes produced but not handed out yet.
    pub closed spec fn pending(&self) -> Seq<u8> {
        self.buffer@
    }

    /// The records appended so far.
    pub closed spec fn records(&self) -> Seq<RecordView> {
        self.records@
    }

    /// The writer's invariant.
    pub closed spec fn wf(&self) -> bool {
        &&& self.written@ + self.buffer@ == header_bytes(event_id_bytes(self.event_id@), 0, self.fps)
            + records_bytes(self.records@)
        &&& self.frame_count == self.records@.len()
    }

    /// A writer for an event whose pending bytes are the header.
    pub fn new(event_id: String, fps: u32) -> (w: Self)
        ensures
            w.wf(),
            w.spec_event_id() == event_id@,
            w.spec_fps() == fps,
            w.written() == Seq::<u8>::empty(),
            w.pending() == header_bytes(event_id_bytes(event_id@), 0, fps),
            w.records() == Seq::<RecordView>::empty(),
    {
        let header = encode_header(event_id.as_str(), fps);
        let w = WalWriter {
            event_id,
            fps,
            frame_count: 0,
            buffer: header,
            written: Ghost(Seq::empty()),
            records: Ghost(Seq::empty()),
        };
        assert(records_bytes(Seq::<RecordView>::empty()) =~= Seq::<u8>::empty());
        assert(w.written@ + w.buffer@ =~= w.buffer@);
        assert(header_bytes(event_id_bytes(w.event_id@), 0, w.fps) + records_bytes(w.records@)
            =~= header_bytes(event_id_bytes(w.event_id@), 0, w.fps));
        w
    }

    /// The number of frames appended.
    pub fn frame_count(&self) -> (n: u32)
        requires
            self.wf(),
        ensures
            n == self.records().len(),
    {
        self.frame_count
    }

    /// Append a record with the given timestamp, id and data; answers whether
    /// the pending bytes have reached the flush threshold.
    pub fn append_record(&mut self, timestamp_nanos: u64, frame_id: u64, data: &[u8]) -> (flush_due: bool)
        requires
            old(self).wf(),
            old(self).records().len() < u32::MAX,
        ensures
            final(self).wf(),
            final(self).spec_event_id() == old(self).spec_event_id(),
            final(self).spec_fps() == old(self).spec_fps(),
            final(self).records() == old(self).records().push((timestamp_nanos, frame_id, data@)),
            final(self).written() == old(self).written(),
            final(self).pending() == old(self).pending() + record_bytes((timestamp_nanos, frame_id, data@)),
            flush_due == (final(self).pending().len() >= WAL_FLUSH_THRESHOLD),
    {
        let mut rec = encode_record(timestamp_nanos, frame_id, data);
        let ghost r: RecordView = (timestamp_nanos, frame_id, data@);
        let ghost old_records = self.records@;
        let ghost old_buffer = self.buffer@;
        let ghost rec_bytes = rec@;
        assert(rec_bytes == record_bytes(r));
        self.buffer.append(&mut rec);
        assert(self.buffer@ == old_buffer + rec_bytes);
        self.records = Ghost(self.records@.push(r));
        self.frame_count = self.frame_count + 1;
        proof {
            lemma_records_bytes_push(old_records, r);
            assert(self.written@ + old_buffer == header_bytes(event_id_bytes(self.event_id@), 0, self.fps)
                + records_bytes(old_records));
            assert(self.records@ == old_records.push(r));
            assert(records_bytes(self.records@) == records_bytes(old_records) + record_bytes(r));
            assert(self.written@ + self.buffer@ =~= (self.written@ + old_buffer) + rec_bytes);
            assert(self.written@ + self.buffer@ =~= header_bytes(event_id_bytes(self.event_id@), 0, self.fps)
                + records_bytes(self.records@));
        }
        self.buffer.len() >= WAL_FLUSH_THRESHOLD
    }

    /// Append a frame, stamped with its capture time in nanoseconds since the
    /// Unix epoch (the low 64 bits; 0 for a time before the epoch); answers
    /// whether the pending bytes have reached the flush threshold.
    pub fn append_frame(&mut self, frame: &crate::frame::FrameData) -> (flush_due: bool)
        requires
            old(self).wf(),
            old(self).records().len() < u32::MAX,
        ensures
            final(self).wf(),
            final(self).spec_event_id() == old(self).spec_event_id(),
            final(self).spec_fps() == old(self).spec_fps(),
            final(self).records().len() == old(self).records().len() + 1,
            final(self).records().drop_last() == old(self).records(),
            final(self).records().last().0 == wal_nanos(frame.timestamp),
            is_frame_record(final(self).records().last(), *frame),
            final(self).written() == old(self).written(),
            final(self).pending() == old(self).pending() + record_bytes(final(self).records().last()),
            flush_due == (final(self).pending().len() >= WAL_FLUSH_THRESHOLD),
    {
        let ts = timestamp_nanos(&frame.timestamp);
        let r = self.append_record(ts, frame.id, frame.data.as_slice());
        proof {
            assert(self.records().drop_last() =~= old(self).records());
        }
        r
    }

    /// Hand out the pending bytes for the file.
    pub fn take_pending(&mut self) -> (bytes: Vec<u8>)
        requires
            old(self).wf(),
        ensures
            final(self).wf(),
            final(self).spec_event_id() == old(self).spec_event_id(),
            final(self).spec_fps() == old(self).spec_fps(),
            final(self).records() == old(self).records(),
            bytes@ == old(self).pending(),
            final(self).pending() == Seq::<u8>::empty(),
            final(self).written() == old(self).written() + bytes@,
    {
        let mut out: Vec<u8> = Vec::new();
        out.append(&mut self.buffer);
        self.written = Ghost(self.written@ + out@);
        assert(self.written@ + self.buffer@ =~= old(self).written@ + old(self).buffer@);
        out
    }

    /// Close the writer: the last pending bytes, and the frame count field
    /// to write over the header at `WAL_FRAME_COUNT_OFFSET`.
    pub fn close(self) -> (r: (Vec<u8>, Vec<u8>))
        requires
            self.wf(),
        ensures
            r.0@ == self.pending(),
            r.1@ == spec_u32_to_le_bytes(self.records().len() as u32),
            patch_bytes(self.written() + r.0@, WAL_FRAME_COUNT_OFFSET as int, r.1@) == header_bytes(
                event_id_bytes(self.spec_event_id()),
                self.records().len() as u32,
                self.spec_fps(),
            ) + records_bytes(self.records()),
    {
        let ghost file = self.written@ + self.buffer@;
        let ghost id = event_id_bytes(self.event_id@);
        let count = self.frame_count;
        let patch = frame_count_field(count);
        proof {
            lemma_auto_spec_u32_to_from_le_bytes();
            let h0 = header_bytes(id, 0, self.fps);
            let rb = records_bytes(self.records@);
            assert(event_id_field(id).len() == 16);
            assert(h0.len() == 32);
            lemma_patch_frame_count(id, self.fps, count);
            assert(patch_bytes(h0 + rb, 24, patch@) =~= patch_bytes(h0, 24, patch@) + rb);
        }
        (self.buffer, patch)
    }
}

/// The frames of a closed writer's file read back as the frames that were
/// appended: same id, same data, and the same timestamp to the nanosecond,
/// for frames stamped at or after the Unix epoch and less than 2^64
/// nanoseconds after it, when every frame's data length fits in 32 bits.
pub proof fn law_closed_wal_frames_read_back(
    id: Seq<char>,
    fps: u32,
    written: Seq<u8>,
    rest: Seq<u8>,
    count_field: Seq<u8>,
    rs: Seq<RecordView>,
    fs: Seq<FrameData>,
)
    requires
        lengths_fit(rs),
        rs.len() <= u32::MAX,
        fs.len() == rs.len(),
        forall|i: int| 0 <= i < rs.len() ==> #[trigger] is_frame_record(rs[i], fs[i]),
        forall|i: int| 0 <= i < fs.len() ==> nanos_exact(#[trigger] fs[i].timestamp),
        count_field == spec_u32_to_le_bytes(rs.len() as u32),
        patch_bytes(written + rest, WAL_FRAME_COUNT_OFFSET as int, count_field) == header_bytes(
            event_id_bytes(id),
            rs.len() as u32,
            fps,
        ) + records_bytes(rs),
    ensures
        spec_parse_wal(patch_bytes(written + rest, WAL_FRAME_COUNT_OFFSET as int, count_field)) == Ok::<
            (WalHeaderInfo, Seq<RecordView>),
            WalFormatError,
        >((WalHeaderInfo { version: WAL_VERSION, frame_count: rs.len() as u32, fps }, rs)),
        forall|i: int, f: FrameData|
            0 <= i < rs.len() && #[trigger] is_record_frame(f, rs[i]) ==> f.timestamp == fs[i].timestamp && f.id
                == fs[i].id && f.data@ == fs[i].data@,
{
    lemma_closed_wal_reads_back(id, fps, written, rest, count_field, rs);
    assert forall|i: int, f: FrameData| 0 <= i < rs.len() && #[trigger] is_record_frame(f, rs[i]) implies f.timestamp
        == fs[i].timestamp && f.id == fs[i].id && f.data@ == fs[i].data@ by {
        assert(is_frame_record(rs[i], fs[i]));
        assert(nanos_exact(fs[i].timestamp));
    }
}

/// What a closed writer's file reads back as: the header with the frame
/// count and fps, and every appended record, when every record's data length
/// fits in 32 bits.
pub proof fn lemma_closed_wal_reads_back(id: Seq<char>, fps: u32, written: Seq<u8>, rest: Seq<u8>, count_field: Seq<u8>, rs: Seq<RecordView>)
    requires
        lengths_fit(rs),
        rs.len() <= u32::MAX,
        count_field == spec_u32_to_le_bytes(rs.len() as u32),
        patch_bytes(written + rest, WAL_FRAME_COUNT_OFFSET as int, count_field) == header_bytes(
            event_id_bytes(id),
            rs.len() as u32,
            fps,
        ) + records_bytes(rs),
    ensures
        spec_parse_wal(patch_bytes(written + rest, WAL_FRAME_COUNT_OFFSET as int, count_field)) == Ok::<
            (WalHeaderInfo, Seq<RecordView>),
            WalFormatError,
        >((WalHeaderInfo { version: WAL_VERSION, frame_count: rs.len() as u32, fps }, rs)),
{
    lemma_wal_round_trip(event_id_bytes(id), fps, rs);
}

/// The message of a WAL format error, as the reader reports it.
pub open spec fn wal_error_message(e: WalFormatError) -> Seq<char> {
    match e {
        WalFormatError::TruncatedHeader => "Failed to read WAL header: early eof"@,
        WalFormatError::BadMagic => "Invalid WAL file: bad magic number"@,
        WalFormatError::UnsupportedVersion { version } => "Unsupported WAL version: "@ + decimal(version as nat),
        WalFormatError::TruncatedFrameId => "Failed to read frame ID: early eof"@,
        WalFormatError::TruncatedLength => "Failed to read data length: early eof"@,
        WalFormatError::TruncatedData => "Failed to read frame data: early eof"@,
    }
}

/// Whether `err` is the error that the reader reports for `e`: a component
/// error of the component "wal" with the message of `e`.
pub open spec fn is_wal_error(err: DoorcamError, e: WalFormatError) -> bool {
    err matches DoorcamError::Component { component, message } && component@ == "wal"@ && message@
        == wal_error_message(e)
}

impl WalFormatError {
    /// The error that a WAL reader reports for this format error.
    pub fn to_error(&self) -> (err: DoorcamError)
        ensures
            is_wal_error(err, *self),
    {
        let message = match self {
            WalFormatError::TruncatedHeader => "Failed to read WAL header: early eof".to_owned(),
            WalFormatError::BadMagic => "Invalid WAL file: bad magic number".to_owned(),
            WalFormatError::UnsupportedVersion { version } => {
                let mut m = "Unsupported WAL version: ".to_owned();
                push_decimal(&mut m, *version as u64);
                m
            },
            WalFormatError::TruncatedFrameId => "Failed to read frame ID: early eof".to_owned(),
            WalFormatError::TruncatedLength => "Failed to read data length: early eof".to_owned(),
            WalFormatError::TruncatedData => "Failed to read frame data: early eof".to_owned(),
        };
        DoorcamError::Component { component: "wal".to_owned(), message }
    }
}

/// The timestamp a WAL record keeps for a time: the low 64 bits of the
/// whole nanoseconds since the Unix epoch, or 0 for a time before it.
pub open spec fn wal_nanos(t: SystemTime) -> u64 {
    match since_epoch(t) {
        Some(d) => (nanos_of(d) % 0x1_0000_0000_0000_0000) as u64,
        None => 0,
    }
}

/// Whether a time is kept exactly: at or after the Unix epoch and less than
/// 2^64 nanoseconds after it.
pub open spec fn nanos_exact(t: SystemTime) -> bool {
    since_epoch(t) matches Some(d) && nanos_of(d) <= u64::MAX
}

/// Whether `r` is the record of frame `f`: its timestamp, id and data, and
/// a timestamp that reads back as `f`'s own when `f`'s time is kept exactly.
pub open spec fn is_frame_record(r: RecordView, f: FrameData) -> bool {
    &&& r.0 == wal_nanos(f.timestamp)
    &&& r.1 == f.id
    &&& r.2 == f.data@
    &&& nanos_exact(f.timestamp) ==> epoch_plus(duration_of_nanos(r.0)) == f.timestamp
}

/// The timestamp a WAL record keeps for a time.
pub fn timestamp_nanos(t: &SystemTime) -> (n: u64)
    ensures
        n == wal_nanos(*t),
        nanos_exact(*t) ==> epoch_plus(duration_of_nanos(n)) == *t,
{
    match time_since_epoch(t) {
        Some(d) => {
            let full = duration_nanos(&d);
            if full <= u64::MAX as u128 {
                full as u64
            } else {
                (full % 0x1_0000_0000_0000_0000u128) as u64
            }
        },
        None => 0,
    }
}

/// Whether `f` is the frame of record `r`: its id and data, stamped at the
/// record's time, with unknown size (0 by 0) and MJPEG format.
pub open spec fn is_record_frame(f: FrameData, r: RecordView) -> bool {
    &&& f.timestamp == epoch_plus(duration_of_nanos(r.0))
    &&& f.id == r.1
    &&& f.data@ == r.2
    &&& f.width == 0
    &&& f.height == 0
    &&& f.format == FrameFormat::Mjpeg
}

/// The frame of a record, stamped the record's nanoseconds after the Unix
/// epoch.
pub fn record_to_frame(r: WalRecord) -> (f: FrameData)
    ensures
        is_record_frame(f, r@),
{
    let d = duration_from_nanos(r.timestamp_nanos);
    assert(d == duration_of_nanos(r.timestamp_nanos));
    let timestamp = time_after_epoch(d);
    FrameData::new(r.frame_id, timestamp, r.data, 0, 0, FrameFormat::Mjpeg)
}

/// Reads the frames of a WAL one by one, from the bytes of the file.
pub struct WalFrameReader {
    bytes: Vec<u8>,
    pos: usize,
    header: WalHeaderInfo,
}

impl WalFrameReader {
    #[verifier::type_invariant]
    closed spec fn inv(&self) -> bool {
        self.pos <= self.bytes@.len()
    }

    /// What the header says.
    pub closed spec fn spec_header(&self) -> WalHeaderInfo {
        self.header
    }

    /// The bytes not read yet.
    pub closed spec fn remaining(&self) -> Seq<u8> {
        self.bytes@.skip(self.pos as int)
    }

    /// Check the header of a WAL file's bytes; the frames follow it.
    pub fn open(bytes: Vec<u8>) -> (r: Result<Self, DoorcamError>)
        ensures
            match spec_parse_header(bytes@) {
                Ok(h) => r matches Ok(reader) && reader.spec_header() == h && reader.remaining() == bytes@.skip(32),
                Err(e) => r matches Err(err) && is_wal_error(err, e),
            },
    {
        match parse_header(bytes.as_slice()) {
            Ok(header) => Ok(WalFrameReader { bytes, pos: WAL_HEADER_SIZE, header }),
            Err(e) => Err(e.to_error()),
        }
    }

    /// The frame count recorded in the header.
    pub fn frame_count(&self) -> (n: u32)
        ensures
            n == self.spec_header().frame_count,
    {
        self.header.frame_count
    }

    /// The fps recorded in the header (0 when unknown).
    pub fn fps(&self) -> (n: u32)
        ensures
            n == self.spec_header().fps,
    {
        self.header.fps
    }

    /// The next frame; none at the end of the log. A record cut short is
    /// an error, and the reader stays where it was.
    pub fn next_frame(&mut self) -> (r: Result<Option<FrameData>, DoorcamError>)
        ensures
            final(self).spec_header() == old(self).spec_header(),
            match spec_next_record(old(self).remaining()) {
                Ok(None) => r matches Ok(None) && final(self).remaining() == old(self).remaining(),
                Ok(Some((rec, len))) => r matches Ok(Some(f)) && is_record_frame(f, rec) && final(self).remaining()
                    == old(self).remaining().skip(len),
                Err(e) => r matches Err(err) && is_wal_error(err, e) && final(self).remaining() == old(
                    self,
                ).remaining(),
            },
    {
        proof {
            use_type_invariant(&*self);
        }
        match parse_record_at(self.bytes.as_slice(), self.pos) {
            Ok(None) => Ok(None),
            Ok(Some((rec, next))) => {
                let ghost before = self.bytes@;
                let ghost old_pos = self.pos;
                self.pos = next;
                proof {
                    assert(before.skip(next as int) =~= before.skip(old_pos as int).skip(next - old_pos));
                }
                Ok(Some(record_to_frame(rec)))
            },
            Err(e) => Err(e.to_error()),
        }
    }
}

/// All the frames of a WAL file's bytes, in order; the first format error
/// otherwise.
pub fn read_all_frames(bytes: &[u8]) -> (r: Result<Vec<FrameData>, DoorcamError>)
    ensures
        match spec_parse_wal(bytes@) {
            Ok((h, rs)) => r matches Ok(frames) && frames@.len() == rs.len() && forall|i: int|
                0 <= i < rs.len() ==> is_record_frame(#[trigger] frames@[i], rs[i]),
            Err(e) => r matches Err(err) && is_wal_error(err, e),
        },
{
    match parse_wal(bytes) {
        Ok((_, records)) => {
            let ghost rs = record_views(records@);
            let mut frames: Vec<FrameData> = Vec::new();
            let mut rest = records;
            let n = rest.len();
            let mut i: usize = 0;
            while i < n
                invariant
                    n == rs.len(),
                    i <= n,
                    rest@.len() == n - i,
                    forall|j: int| 0 <= j < n - i ==> (#[trigger] rest@[j])@ == rs[i + j],
                    frames@.len() == i,
                    forall|j: int| 0 <= j < i ==> is_record_frame(#[trigger] frames@[j], rs[j]),
                decreases n - i,
            {
                let ghost prev = rest@;
                let rec = rest.remove(0);
                proof {
                    assert(rec@ == rs[i as int]);
                    assert forall|j: int| 0 <= j < n - (i + 1) implies (#[trigger] rest@[j])@ == rs[(i + 1) + j] by {
                        assert(rest@[j] == prev[j + 1]);
                    }
                }
                frames.push(record_to_frame(rec));
                i = i + 1;
            }
            Ok(frames)
        },
        Err(e) => Err(e.to_error()),
    }
}

/// Reads all the frames of a WAL file at once.
pub struct WalReader {
    path: std::path::PathBuf,
}

impl WalReader {
    /// A reader for the WAL file at `path`.
    pub fn new(path: std::path::PathBuf) -> (r: Self)
        ensures
            r.spec_path() == path,
    {
        WalReader { path }
    }

    /// The file's path.
    pub closed spec fn spec_path(&self) -> std::path::PathBuf {
        self.path
    }

    /// The file's path, for reading it and for messages.
    pub fn path(&self) -> (p: &std::path::PathBuf)
        ensures
            *p == self.spec_path(),
    {
        &self.path
    }

    /// All the frames of the file, given its bytes, in order; the first
    /// format error otherwise.
    pub fn read_all_frames(&self, bytes: &[u8]) -> (r: Result<Vec<FrameData>, DoorcamError>)
        ensures
            match spec_parse_wal(bytes@) {
                Ok((h, rs)) => r matches Ok(frames) && frames@.len() == rs.len() && forall|i: int|
                    0 <= i < rs.len() ==> is_record_frame(#[trigger] frames@[i], rs[i]),
                Err(e) => r matches Err(err) && is_wal_error(err, e),
            },
    {
        read_all_frames(bytes)
    }
}

/// Reading record by record agrees with reading the whole stream: the
/// stream holds no records exactly when no first record is there, a first
/// record is followed by the records of the rest, and a record cut short is
/// the same error either way.
pub proof fn law_streaming_agrees_with_whole(s: Seq<u8>)
    ensures
        match spec_next_record(s) {
            Ok(None) => spec_parse_records(s) == Ok::<Seq<RecordView>, WalFormatError>(Seq::empty()),
            Ok(Some((r, len))) => 0 < len <= s.len() && spec_parse_records(s) == match spec_parse_records(
                s.skip(len),
            ) {
                Ok(rest) => Ok(seq![r] + rest),
                Err(e) => Err(e),
            },
            Err(e) => spec_parse_records(s) == Err::<Seq<RecordView>, WalFormatError>(e),
        },
{
}

} // verus!
