//! Frames captured from the camera, their formats and sizes, and the
//! processed forms of a frame.
use crate::error::{DoorcamError, ProcessingError};
use crate::opaque::{duration_gt, duration_longer, duration_millis, elapsed_since, millis_of, system_since};
use std::sync::Arc;
use std::time::SystemTime;
use vstd::prelude::*;

verus! {

/// Frame formats.
#[derive(Debug, Clone, Copy, PartialEq, Eq, Structural)]
pub enum FrameFormat {
    /// Motion JPEG: compressed JPEG frames.
    Mjpeg,
    /// YUV 4:2:2: two bytes per pixel.
    Yuyv,
    /// RGB24: three bytes per pixel.
    Rgb24,
}

/// Bytes per pixel of a format (0 for the compressed MJPEG).
pub open spec fn spec_bytes_per_pixel(f: FrameFormat) -> nat {
    match f {
        FrameFormat::Mjpeg => 0,
        FrameFormat::Yuyv => 2,
        FrameFormat::Rgb24 => 3,
    }
}

impl FrameFormat {
    /// Bytes per pixel of the format (0 for compressed, variable-size MJPEG).
    pub fn bytes_per_pixel(&self) -> (n: usize)
        ensures
            n == spec_bytes_per_pixel(*self),
    {
        match self {
            FrameFormat::Mjpeg => 0,
            FrameFormat::Yuyv => 2,
            FrameFormat::Rgb24 => 3,
        }
    }

    /// Whether the format is compressed.
    pub fn is_compressed(&self) -> (b: bool)
        ensures
            b == (*self == FrameFormat::Mjpeg),
    {
        match self {
            FrameFormat::Mjpeg => true,
            _ => false,
        }
    }
}

/// Clockwise rotations of a frame.
#[derive(Debug, Clone, Copy, PartialEq, Eq, Structural)]
pub enum Rotation {
    Rotate90,
    Rotate180,
    Rotate270,
}

/// The angle of a rotation in degrees.
pub open spec fn spec_degrees(r: Rotation) -> u16 {
    match r {
        Rotation::Rotate90 => 90,
        Rotation::Rotate180 => 180,
        Rotation::Rotate270 => 270,
    }
}

impl Rotation {
    /// The rotation angle in degrees.
    pub fn degrees(&self) -> (d: u16)
        ensures
            d == spec_degrees(*self),
    {
        match self {
            Rotation::Rotate90 => 90,
            Rotation::Rotate180 => 180,
            Rotation::Rotate270 => 270,
        }
    }
}

/// A frame: raw data and metadata.
#[derive(Debug, Clone)]
pub struct FrameData {
    /// Unique frame identifier.
    pub id: u64,
    /// When the frame was captured.
    pub timestamp: SystemTime,
    /// Raw frame data, shared.
    pub data: Arc<Vec<u8>>,
    /// Width in pixels.
    pub width: u32,
    /// Height in pixels.
    pub height: u32,
    /// Format of the data.
    pub format: FrameFormat,
}

/// The size that uncompressed frame data must have; none for compressed data.
pub open spec fn spec_expected_size(width: u32, height: u32, format: FrameFormat) -> Option<nat> {
    if format == FrameFormat::Mjpeg {
        None
    } else {
        Some((width * height * spec_bytes_per_pixel(format)) as nat)
    }
}

impl FrameData {
    /// A new frame.
    pub fn new(
        id: u64,
        timestamp: SystemTime,
        data: Vec<u8>,
        width: u32,
        height: u32,
        format: FrameFormat,
    ) -> (f: Self)
        ensures
            f.id == id,
            f.timestamp == timestamp,
            f.data@ == data@,
            f.width == width,
            f.height == height,
            f.format == format,
    {
        FrameData { id, timestamp, data: Arc::new(data), width, height, format }
    }

    /// The size that the data must have for an uncompressed format.
    pub fn expected_size(&self) -> (r: Option<usize>)
        requires
            self.width * self.height * spec_bytes_per_pixel(self.format) <= usize::MAX,
        ensures
            r matches Some(n) ==> spec_expected_size(self.width, self.height, self.format) == Some(
                n as nat,
            ),
            r is None ==> spec_expected_size(self.width, self.height, self.format) is None,
    {
        if self.format.is_compressed() {
            None
        } else {
            let w = self.width as usize;
            let h = self.height as usize;
            let bpp = self.format.bytes_per_pixel();
            assert(w * h * bpp <= usize::MAX);
            assert(w * h <= w * h * bpp) by (nonlinear_arith)
                requires
                    bpp >= 1,
            ;
            Some(w * h * bpp)
        }
    }

    /// Whether the data has the size that the format requires; compressed
    /// data always has.
    pub fn validate_size(&self) -> (b: bool)
        requires
            self.width * self.height * spec_bytes_per_pixel(self.format) <= usize::MAX,
        ensures
            b == match spec_expected_size(self.width, self.height, self.format) {
                Some(n) => self.data@.len() == n,
                None => true,
            },
    {
        match self.expected_size() {
            Some(expected) => self.data.len() == expected,
            None => true,
        }
    }

    /// Age of the frame in milliseconds, measured from its timestamp to the
    /// moment of the call (0 when the clock reads earlier than the
    /// timestamp).
    pub fn age_ms(&self) -> (ms: u64)
        ensures
            exists|now: SystemTime| ms == spec_age_ms(#[trigger] system_since(now, self.timestamp)),
    {
        let elapsed = elapsed_since(&self.timestamp);
        proof {
            let now = choose|now: SystemTime| elapsed == #[trigger] system_since(now, self.timestamp);
            assert(spec_age_ms(elapsed) == spec_age_ms(system_since(now, self.timestamp)));
        }
        age_ms_of(elapsed)
    }

    /// Whether the frame is older than `duration`, measured from its
    /// timestamp to the moment of the call (false when the clock reads
    /// earlier than the timestamp).
    pub fn is_older_than(&self, duration: std::time::Duration) -> (b: bool)
        ensures
            exists|now: SystemTime| b == spec_older_than(#[trigger] system_since(now, self.timestamp), duration),
    {
        let elapsed = elapsed_since(&self.timestamp);
        proof {
            let now = choose|now: SystemTime| elapsed == #[trigger] system_since(now, self.timestamp);
            assert(spec_older_than(elapsed, duration) == spec_older_than(system_since(now, self.timestamp), duration));
        }
        older_than(elapsed, duration)
    }
}

/// The age in milliseconds for the time elapsed since a frame was taken;
/// 0 when the clock reads earlier than the frame.
pub open spec fn spec_age_ms(elapsed: Option<std::time::Duration>) -> u64 {
    match elapsed {
        Some(d) => millis_of(d),
        None => 0,
    }
}

/// Whether the time elapsed since a frame was taken exceeds `duration`;
/// false when the clock reads earlier than the frame.
pub open spec fn spec_older_than(elapsed: Option<std::time::Duration>, duration: std::time::Duration) -> bool {
    match elapsed {
        Some(d) => duration_gt(d, duration),
        None => false,
    }
}

/// The age in milliseconds for an elapsed time.
pub fn age_ms_of(elapsed: Option<std::time::Duration>) -> (ms: u64)
    ensures
        ms == spec_age_ms(elapsed),
{
    match elapsed {
        Some(age) => duration_millis(&age),
        None => 0,
    }
}

/// Whether an elapsed time exceeds `duration`.
pub fn older_than(elapsed: Option<std::time::Duration>, duration: std::time::Duration) -> (b: bool)
    ensures
        b == spec_older_than(elapsed, duration),
{
    match elapsed {
        Some(age) => duration_longer(&age, &duration),
        None => false,
    }
}

/// Purpose for which frame data is requested.
#[derive(Debug, Clone, Copy, PartialEq, Eq, Structural)]
pub enum FramePurpose {
    /// Display on screen.
    Display,
    /// Streaming over the network.
    Streaming,
    /// Storage and recording.
    Storage,
    /// Motion analysis.
    Analysis,
}

/// A frame with the results of processing it.
#[derive(Debug, Clone)]
pub struct ProcessedFrame {
    /// The original frame.
    pub original: FrameData,
    /// Rotated data, if rotation was applied.
    pub rotated: Option<Arc<Vec<u8>>>,
    /// JPEG-encoded data, if encoding was applied.
    pub jpeg_encoded: Option<Arc<Vec<u8>>>,
    /// Display-ready data, if display conversion was applied.
    pub display_ready: Option<Arc<Vec<u8>>>,
}

/// The first of two optional data, else the fallback.
pub open spec fn first_of(a: Option<Arc<Vec<u8>>>, b: Option<Arc<Vec<u8>>>, c: Arc<Vec<u8>>) -> Arc<
    Vec<u8>,
> {
    match a {
        Some(x) => x,
        None => match b {
            Some(y) => y,
            None => c,
        },
    }
}

/// The data best suited to a purpose: display-ready data for display,
/// encoded data for streaming and storage, rotated data for analysis; each
/// falls back to the rotated data and then to the original data.
pub open spec fn spec_data_for_purpose(p: ProcessedFrame, purpose: FramePurpose) -> Arc<Vec<u8>> {
    match purpose {
        FramePurpose::Display => first_of(p.display_ready, p.rotated, p.original.data),
        FramePurpose::Streaming => first_of(p.jpeg_encoded, p.rotated, p.original.data),
        FramePurpose::Storage => first_of(p.jpeg_encoded, p.rotated, p.original.data),
        FramePurpose::Analysis => first_of(p.rotated, None, p.original.data),
    }
}

impl ProcessedFrame {
    /// A processed frame with no processing applied yet.
    pub fn new(frame: FrameData) -> (p: Self)
        ensures
            p.original == frame,
            p.rotated is None,
            p.jpeg_encoded is None,
            p.display_ready is None,
    {
        ProcessedFrame { original: frame, rotated: None, jpeg_encoded: None, display_ready: None }
    }

    /// A processed frame, rotated when a rotation is given; a rotation that
    /// fails is the frame's error.
    pub fn from_frame(frame: FrameData, rotation: Option<Rotation>) -> (r: Result<Self, DoorcamError>)
        ensures
            match rotation {
                None => r matches Ok(p) && p.original == frame && p.rotated is None && p.jpeg_encoded is None
                    && p.display_ready is None,
                Some(rot) => match rotation_outcome(frame.data@, frame.format, rot) {
                    RotationOutcome::Rotated(b) => r matches Ok(p) && p.original == frame && p.jpeg_encoded is None
                        && p.display_ready is None && (p.rotated matches Some(d) && d@ == b),
                    failure => r matches Err(e) && is_rotation_error(e, failure),
                },
            },
    {
        let mut processed = ProcessedFrame {
            original: frame,
            rotated: None,
            jpeg_encoded: None,
            display_ready: None,
        };
        if let Some(rot) = rotation {
            match FrameProcessor::apply_rotation(&processed.original, rot) {
                Ok(rotated) => {
                    processed.rotated = Some(rotated);
                },
                Err(e) => {
                    return Err(e);
                },
            }
        }
        Ok(processed)
    }

    /// The JPEG data of the frame: the cached encoding if there is one,
    /// else the encoding of the rotated data if there is any, else of the
    /// original data.
    pub fn get_jpeg(&self) -> (r: Result<Arc<Vec<u8>>, DoorcamError>)
        ensures
            r matches Ok(d) && d@ == first_of(self.jpeg_encoded, self.rotated, self.original.data)@,
    {
        if let Some(jpeg) = &self.jpeg_encoded {
            return Ok(share(jpeg));
        }
        let source_frame = match &self.rotated {
            Some(rotated) => FrameData {
                id: self.original.id,
                timestamp: self.original.timestamp,
                data: share(rotated),
                width: self.original.width,
                height: self.original.height,
                format: self.original.format,
            },
            None => FrameData {
                id: self.original.id,
                timestamp: self.original.timestamp,
                data: share(&self.original.data),
                width: self.original.width,
                height: self.original.height,
                format: self.original.format,
            },
        };
        FrameProcessor::encode_jpeg(&source_frame)
    }

    /// The most appropriate data for a purpose.
    pub fn get_data_for_purpose(&self, purpose: FramePurpose) -> (d: &Arc<Vec<u8>>)
        ensures
            *d == spec_data_for_purpose(*self, purpose),
    {
        match purpose {
            FramePurpose::Display => match &self.display_ready {
                Some(x) => x,
                None => match &self.rotated {
                    Some(y) => y,
                    None => &self.original.data,
                },
            },
            FramePurpose::Streaming | FramePurpose::Storage => match &self.jpeg_encoded {
                Some(x) => x,
                None => match &self.rotated {
                    Some(y) => y,
                    None => &self.original.data,
                },
            },
            FramePurpose::Analysis => match &self.rotated {
                Some(y) => y,
                None => &self.original.data,
            },
        }
    }
}

/// Calls `<Arc as Clone>::clone`: another handle to the same allocation,
/// so the same data.
#[verifier::external_body]
pub(crate) fn share(d: &Arc<Vec<u8>>) -> (r: Arc<Vec<u8>>)
    ensures
        r == *d,
{
    Arc::clone(d)
}

/// `image::DynamicImage`: a decoded picture of any color type, carried
/// opaquely.
#[verifier::external_type_specification]
#[verifier::external_body]
pub struct ExDynamicImage(image::DynamicImage);

/// What `image::load_from_memory` gives for encoded bytes: the picture, or
/// the text of the decoder's error.
pub uninterp spec fn decoded_image(data: Seq<u8>) -> Result<image::DynamicImage, Seq<char>>;

/// A decoded picture or a decoder error, with the error as text.
pub open spec fn image_result_view(r: Result<image::DynamicImage, String>) -> Result<image::DynamicImage, Seq<char>> {
    match r {
        Ok(img) => Ok(img),
        Err(e) => Err(e@),
    }
}

/// Calls `image::load_from_memory` (the format guessed from the bytes); a
/// failure gives the error's text. The picture is named, not stated.
#[verifier::external_body]
fn decode_image(data: &[u8]) -> (r: Result<image::DynamicImage, String>)
    ensures
        image_result_view(r) == decoded_image(data@),
{
    image::load_from_memory(data).map_err(|e| e.to_string())
}

/// What `DynamicImage::rotate90` gives: the picture turned a quarter clockwise.
pub uninterp spec fn rotated_quarter(img: image::DynamicImage) -> image::DynamicImage;

/// Calls `DynamicImage::rotate90`.
#[verifier::external_body]
fn rotate_quarter(img: &image::DynamicImage) -> (r: image::DynamicImage)
    ensures
        r == rotated_quarter(*img),
{
    img.rotate90()
}

/// What `DynamicImage::rotate180` gives: the picture turned half a turn.
pub uninterp spec fn rotated_half(img: image::DynamicImage) -> image::DynamicImage;

/// Calls `DynamicImage::rotate180`.
#[verifier::external_body]
fn rotate_half(img: &image::DynamicImage) -> (r: image::DynamicImage)
    ensures
        r == rotated_half(*img),
{
    img.rotate180()
}

/// What `DynamicImage::rotate270` gives: the picture turned three quarters
/// clockwise.
pub uninterp spec fn rotated_three_quarters(img: image::DynamicImage) -> image::DynamicImage;

/// Calls `DynamicImage::rotate270`.
#[verifier::external_body]
fn rotate_three_quarters(img: &image::DynamicImage) -> (r: image::DynamicImage)
    ensures
        r == rotated_three_quarters(*img),
{
    img.rotate270()
}

/// What `JpegEncoder::new_with_quality(.., quality).encode_image` writes for
/// a picture: the JPEG bytes, or the text of the encoder's error.
pub uninterp spec fn jpeg_of(img: image::DynamicImage, quality: u8) -> Result<Seq<u8>, Seq<char>>;

/// JPEG bytes or an encoder error, as plain values.
pub open spec fn bytes_result_view(r: Result<Vec<u8>, String>) -> Result<Seq<u8>, Seq<char>> {
    match r {
        Ok(b) => Ok(b@),
        Err(e) => Err(e@),
    }
}

/// Calls `JpegEncoder::new_with_quality` into a new buffer and
/// `encode_image` on the picture; a failure gives the error's text. The
/// bytes are named, not stated.
#[verifier::external_body]
fn encode_jpeg_quality(img: &image::DynamicImage, quality: u8) -> (r: Result<Vec<u8>, String>)
    ensures
        bytes_result_view(r) == jpeg_of(*img, quality),
{
    let mut buf = Vec::new();
    let mut encoder = image::codecs::jpeg::JpegEncoder::new_with_quality(&mut buf, quality);
    match encoder.encode_image(img) {
        Ok(()) => Ok(buf),
        Err(e) => Err(e.to_string()),
    }
}

/// The picture turned clockwise by a rotation.
pub open spec fn turned(img: image::DynamicImage, rotation: Rotation) -> image::DynamicImage {
    match rotation {
        Rotation::Rotate90 => rotated_quarter(img),
        Rotation::Rotate180 => rotated_half(img),
        Rotation::Rotate270 => rotated_three_quarters(img),
    }
}

/// What rotating frame data gives: the rotated bytes, or the failure of
/// decoding or of encoding again with its message.
pub enum RotationOutcome {
    Rotated(Seq<u8>),
    DecodeFailed(Seq<char>),
    EncodeFailed(Seq<char>),
}

/// The outcome of rotating data of a format: MJPEG is decoded, turned and
/// encoded as JPEG at quality 90; other formats are left as they are.
pub open spec fn rotation_outcome(data: Seq<u8>, format: FrameFormat, rotation: Rotation) -> RotationOutcome {
    if format != FrameFormat::Mjpeg {
        RotationOutcome::Rotated(data)
    } else {
        match decoded_image(data) {
            Err(e) => RotationOutcome::DecodeFailed(e),
            Ok(img) => match jpeg_of(turned(img, rotation), 90) {
                Ok(b) => RotationOutcome::Rotated(b),
                Err(e) => RotationOutcome::EncodeFailed(e),
            },
        }
    }
}

/// Whether `e` is the error reported for a failed rotation: a rotation
/// error "JPEG decode failed: " and the decoder's message, or a JPEG
/// encoding error with the encoder's message.
pub open spec fn is_rotation_error(e: DoorcamError, o: RotationOutcome) -> bool {
    match o {
        RotationOutcome::DecodeFailed(m) => e matches DoorcamError::Processing(ProcessingError::Rotation { details })
            && details@ == "JPEG decode failed: "@ + m,
        RotationOutcome::EncodeFailed(m) => e matches DoorcamError::Processing(ProcessingError::JpegEncoding { details })
            && details@ == m,
        RotationOutcome::Rotated(_) => false,
    }
}

/// Frame processing utilities.
pub struct FrameProcessor;

impl FrameProcessor {
    /// Rotate a frame's data: an MJPEG frame is decoded, turned clockwise
    /// and encoded again as JPEG at quality 90; other formats keep their
    /// bytes.
    pub fn apply_rotation(frame: &FrameData, rotation: Rotation) -> (r: Result<Arc<Vec<u8>>, DoorcamError>)
        ensures
            match rotation_outcome(frame.data@, frame.format, rotation) {
                RotationOutcome::Rotated(b) => r matches Ok(d) && d@ == b,
                failure => r matches Err(e) && is_rotation_error(e, failure),
            },
    {
        match frame.format {
            FrameFormat::Mjpeg => {
                let img = match decode_image(frame.data.as_slice()) {
                    Ok(img) => img,
                    Err(e) => {
                        return Err(
                            DoorcamError::Processing(
                                ProcessingError::Rotation { details: crate::text::concat("JPEG decode failed: ", e.as_str()) },
                            ),
                        );
                    },
                };
                let turned = match rotation {
                    Rotation::Rotate90 => rotate_quarter(&img),
                    Rotation::Rotate180 => rotate_half(&img),
                    Rotation::Rotate270 => rotate_three_quarters(&img),
                };
                match encode_jpeg_quality(&turned, 90) {
                    Ok(bytes) => Ok(Arc::new(bytes)),
                    Err(e) => Err(DoorcamError::Processing(ProcessingError::JpegEncoding { details: e })),
                }
            },
            _ => Ok(share(&frame.data)),
        }
    }

    /// JPEG data of a frame: MJPEG frames are JPEG already; other formats are
    /// returned as they are, since no encoder is built in.
    pub fn encode_jpeg(frame: &FrameData) -> (r: Result<Arc<Vec<u8>>, DoorcamError>)
        ensures
            r matches Ok(d) && d@ == frame.data@,
    {
        match frame.format {
            FrameFormat::Mjpeg => Ok(share(&frame.data)),
            _ => Ok(share(&frame.data)),
        }
    }

    /// Data of a frame prepared for display in a target format; no
    /// conversion is built in, so the data is returned as it is.
    pub fn prepare_for_display(frame: &FrameData, target_format: FrameFormat) -> (r: Result<
        Arc<Vec<u8>>,
        DoorcamError,
    >)
        ensures
            r matches Ok(d) && d@ == frame.data@,
    {
        Ok(share(&frame.data))
    }
}


/// How an MJPEG frame is rotated: a quarter turn is the decoded picture
/// turned 90 degrees clockwise (`rotate90`), a half turn `rotate180`, three
/// quarters `rotate270`, each encoded again at quality 90; a frame that
/// does not decode is a decode failure; other formats keep their bytes.
pub proof fn law_rotation_turns_clockwise(data: Seq<u8>)
    ensures
        decoded_image(data) matches Ok(img) ==> rotation_outcome(data, FrameFormat::Mjpeg, Rotation::Rotate90)
            == match jpeg_of(rotated_quarter(img), 90) {
            Ok(b) => RotationOutcome::Rotated(b),
            Err(m) => RotationOutcome::EncodeFailed(m),
        },
        decoded_image(data) matches Ok(img) ==> rotation_outcome(data, FrameFormat::Mjpeg, Rotation::Rotate180)
            == match jpeg_of(rotated_half(img), 90) {
            Ok(b) => RotationOutcome::Rotated(b),
            Err(m) => RotationOutcome::EncodeFailed(m),
        },
        decoded_image(data) matches Ok(img) ==> rotation_outcome(data, FrameFormat::Mjpeg, Rotation::Rotate270)
            == match jpeg_of(rotated_three_quarters(img), 90) {
            Ok(b) => RotationOutcome::Rotated(b),
            Err(m) => RotationOutcome::EncodeFailed(m),
        },
        forall|r: Rotation|
            decoded_image(data) matches Err(m) ==> #[trigger] rotation_outcome(data, FrameFormat::Mjpeg, r)
                == RotationOutcome::DecodeFailed(m),
        forall|r: Rotation, f: FrameFormat|
            f != FrameFormat::Mjpeg ==> #[trigger] rotation_outcome(data, f, r) == RotationOutcome::Rotated(data),
{
}


/// Which data a purpose gets: display-ready data for display, encoded
/// data for streaming and storage, and otherwise the rotated data, else the
/// original; analysis never gets encoded or display data.
pub proof fn law_data_for_purpose(p: ProcessedFrame)
    ensures
        p.display_ready matches Some(d) ==> spec_data_for_purpose(p, FramePurpose::Display) == d,
        p.jpeg_encoded matches Some(d) ==> spec_data_for_purpose(p, FramePurpose::Streaming) == d,
        p.jpeg_encoded matches Some(d) ==> spec_data_for_purpose(p, FramePurpose::Storage) == d,
        p.rotated matches Some(d) ==> spec_data_for_purpose(p, FramePurpose::Analysis) == d,
        p.rotated is None ==> spec_data_for_purpose(p, FramePurpose::Analysis) == p.original.data,
        p.display_ready is None && p.rotated is None ==> spec_data_for_purpose(p, FramePurpose::Display)
            == p.original.data,
        p.jpeg_encoded is None && p.rotated is None ==> spec_data_for_purpose(p, FramePurpose::Storage)
            == p.original.data,
        p.display_ready is None ==> (p.rotated matches Some(d) ==> spec_data_for_purpose(p, FramePurpose::Display)
            == d),
{
}

} // verus!
