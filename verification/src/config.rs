//! Configuration of the door camera: its sections, the built-in defaults,
//! and validation.
//!
//! Two settings are real numbers (the minimum contour area and the
//! timestamp font size); they are held here as the bit patterns of their
//! IEEE-754 values (`f64::to_bits` and `f32::to_bits`).
use crate::error::ConfigError;
use vstd::prelude::*;

verus! {

/// The whole configuration.
#[derive(Debug, Clone)]
pub struct DoorcamConfig {
    pub camera: CameraConfig,
    pub analyzer: AnalyzerConfig,
    pub event: EventConfig,
    pub capture: CaptureConfig,
    pub stream: StreamConfig,
    pub display: DisplayConfig,
    pub system: SystemConfig,
}

/// Camera settings.
#[derive(Debug)]
pub struct CameraConfig {
    /// Camera device index (0 for /dev/video0).
    pub index: u32,
    /// Resolution (width, height).
    pub resolution: (u32, u32),
    /// Frames per second.
    pub fps: u32,
    /// Video format (MJPG, YUYV, ...).
    pub format: String,
}

/// Motion analyzer settings.
#[derive(Debug, Clone, Copy)]
pub struct AnalyzerConfig {
    /// Frames per second analyzed.
    pub fps: u32,
    /// Pixel difference threshold for motion.
    pub delta_threshold: u32,
    /// Minimum contour area that counts as motion: bits of an `f64`.
    pub contour_minimum_area_bits: u64,
    /// JPEG decoding scale (1 = full, 2 = 1/2, 4 = 1/4, 8 = 1/8).
    pub jpeg_decode_scale: u32,
}

/// Event timing.
#[derive(Debug, Clone, Copy)]
pub struct EventConfig {
    /// Seconds recorded before the motion.
    pub preroll_seconds: u32,
    /// Seconds recorded after the last motion.
    pub postroll_seconds: u32,
}

/// Capture output settings.
#[derive(Debug, Clone)]
pub struct CaptureConfig {
    /// Base path for captures.
    pub path: String,
    /// Draw a timestamp on images.
    pub timestamp_overlay: bool,
    /// TrueType font for the timestamp.
    pub timestamp_font_path: String,
    /// Font size of the timestamp: bits of an `f32`.
    pub timestamp_font_size_bits: u32,
    /// Encode a video.
    pub video_encoding: bool,
    /// Keep the individual JPEG images.
    pub keep_images: bool,
    /// Save a metadata file per capture.
    pub save_metadata: bool,
    /// Rotation applied when saving media.
    pub rotation: Option<Rotation>,
}

/// Stream server settings.
#[derive(Debug, Clone)]
pub struct StreamConfig {
    /// Address to bind.
    pub ip: String,
    /// Port to listen on.
    pub port: u16,
    /// Rotation applied to the stream.
    pub rotation: Option<Rotation>,
}

/// Display settings.
#[derive(Debug)]
pub struct DisplayConfig {
    /// Framebuffer device.
    pub framebuffer_device: String,
    /// Backlight control device.
    pub backlight_device: String,
    /// Touch input device.
    pub touch_device: String,
    /// Seconds the display stays on after activation.
    pub activation_period_seconds: u32,
    /// Resolution (width, height).
    pub resolution: (u32, u32),
    /// Rotation of the display.
    pub rotation: Option<Rotation>,
    /// JPEG decoding scale for the display.
    pub jpeg_decode_scale: u32,
}

/// System settings.
#[derive(Debug, Clone, Copy)]
pub struct SystemConfig {
    /// Delete old events automatically.
    pub trim_old: bool,
    /// Days events are kept.
    pub retention_days: u32,
    /// Ring buffer capacity in frames.
    pub ring_buffer_capacity: usize,
    /// Event bus capacity.
    pub event_bus_capacity: usize,
}

impl Clone for CameraConfig {
    fn clone(&self) -> (c: Self)
        ensures
            c.index == self.index,
            c.resolution == self.resolution,
            c.fps == self.fps,
            c.format@ == self.format@,
    {
        CameraConfig {
            index: self.index,
            resolution: (self.resolution.0, self.resolution.1),
            fps: self.fps,
            format: self.format.clone(),
        }
    }
}

impl Clone for DisplayConfig {
    fn clone(&self) -> (c: Self)
        ensures
            c.framebuffer_device@ == self.framebuffer_device@,
            c.backlight_device@ == self.backlight_device@,
            c.touch_device@ == self.touch_device@,
            c.activation_period_seconds == self.activation_period_seconds,
            c.resolution == self.resolution,
            c.rotation == self.rotation,
            c.jpeg_decode_scale == self.jpeg_decode_scale,
    {
        DisplayConfig {
            framebuffer_device: self.framebuffer_device.clone(),
            backlight_device: self.backlight_device.clone(),
            touch_device: self.touch_device.clone(),
            activation_period_seconds: self.activation_period_seconds,
            resolution: (self.resolution.0, self.resolution.1),
            rotation: self.rotation,
            jpeg_decode_scale: self.jpeg_decode_scale,
        }
    }
}

/// Rotations that the configuration can ask for.
#[derive(Debug, Clone, Copy, PartialEq, Eq, Structural)]
pub enum Rotation {
    Rotate90,
    Rotate180,
    Rotate270,
}

/// The first rule that a configuration breaks, if any; validation checks
/// them in this order.
pub open spec fn spec_first_violation(c: DoorcamConfig) -> Option<Seq<char>> {
    if c.camera.resolution.0 == 0 || c.camera.resolution.1 == 0 {
        Some("Camera resolution must be greater than 0"@)
    } else if c.camera.fps == 0 {
        Some("Camera fps must be greater than 0"@)
    } else if c.analyzer.fps == 0 {
        Some("Analyzer fps must be greater than 0"@)
    } else if c.event.preroll_seconds == 0 {
        Some("Event preroll_seconds must be greater than 0"@)
    } else if c.event.postroll_seconds == 0 {
        Some("Event postroll_seconds must be greater than 0"@)
    } else if c.system.ring_buffer_capacity == 0 {
        Some("Ring buffer capacity must be greater than 0"@)
    } else if c.system.event_bus_capacity == 0 {
        Some("Event bus capacity must be greater than 0"@)
    } else {
        None
    }
}

fn violation(message: &str) -> (r: Result<(), ConfigError>)
    ensures
        r matches Err(ConfigError::Message(m)) && m@ == message@,
{
    Err(ConfigError::Message(message.to_owned()))
}

impl DoorcamConfig {
    /// Check the configuration: the camera resolution, the camera and
    /// analyzer fps, the preroll and postroll, and the ring buffer and event
    /// bus capacities must all be greater than 0. The error names the first
    /// rule broken.
    pub fn validate(&self) -> (r: Result<(), ConfigError>)
        ensures
            match spec_first_violation(*self) {
                None => r is Ok,
                Some(m) => r matches Err(ConfigError::Message(msg)) && msg@ == m,
            },
    {
        if self.camera.resolution.0 == 0 || self.camera.resolution.1 == 0 {
            return violation("Camera resolution must be greater than 0");
        }
        if self.camera.fps == 0 {
            return violation("Camera fps must be greater than 0");
        }
        if self.analyzer.fps == 0 {
            return violation("Analyzer fps must be greater than 0");
        }
        if self.event.preroll_seconds == 0 {
            return violation("Event preroll_seconds must be greater than 0");
        }
        if self.event.postroll_seconds == 0 {
            return violation("Event postroll_seconds must be greater than 0");
        }
        if self.system.ring_buffer_capacity == 0 {
            return violation("Ring buffer capacity must be greater than 0");
        }
        if self.system.event_bus_capacity == 0 {
            return violation("Event bus capacity must be greater than 0");
        }
        Ok(())
    }
}

/// The built-in defaults (text fields are stated separately).
pub open spec fn spec_is_default(c: DoorcamConfig) -> bool {
    &&& c.camera.index == 0
    &&& c.camera.resolution == (640u32, 480u32)
    &&& c.camera.fps == 30
    &&& c.camera.format@ == "MJPG"@
    &&& c.analyzer.fps == 5
    &&& c.analyzer.delta_threshold == 25
    &&& c.analyzer.contour_minimum_area_bits == DEFAULT_CONTOUR_AREA_BITS
    &&& c.analyzer.jpeg_decode_scale == 4
    &&& c.event.preroll_seconds == 5
    &&& c.event.postroll_seconds == 10
    &&& c.capture.path@ == "./captures"@
    &&& c.capture.timestamp_overlay
    &&& c.capture.timestamp_font_path@ == "/usr/share/fonts/truetype/dejavu/DejaVuSans.ttf"@
    &&& c.capture.timestamp_font_size_bits == DEFAULT_FONT_SIZE_BITS
    &&& c.capture.video_encoding
    &&& !c.capture.keep_images
    &&& !c.capture.save_metadata
    &&& c.capture.rotation is None
    &&& c.stream.ip@ == "0.0.0.0"@
    &&& c.stream.port == 8080
    &&& c.stream.rotation is None
    &&& c.display.framebuffer_device@ == "/dev/fb0"@
    &&& c.display.backlight_device@ == "/sys/class/backlight/rpi_backlight/brightness"@
    &&& c.display.touch_device@ == "/dev/input/event0"@
    &&& c.display.activation_period_seconds == 30
    &&& c.display.resolution == (800u32, 480u32)
    &&& c.display.rotation is None
    &&& c.display.jpeg_decode_scale == 4
    &&& c.system.trim_old
    &&& c.system.retention_days == 7
    &&& c.system.ring_buffer_capacity == 150
    &&& c.system.event_bus_capacity == 100
}

/// Bits of the `f64` 1000.0, the default minimum contour area.
pub const DEFAULT_CONTOUR_AREA_BITS: u64 = 0x408f_4000_0000_0000;

/// Bits of the `f32` 24.0, the default timestamp font size.
pub const DEFAULT_FONT_SIZE_BITS: u32 = 0x41c0_0000;

impl Default for DoorcamConfig {
    fn default() -> (c: Self)
        ensures
            spec_is_default(c),
    {
        DoorcamConfig {
            camera: CameraConfig {
                index: default_camera_index(),
                resolution: default_camera_resolution(),
                fps: default_camera_fps(),
                format: default_camera_format(),
            },
            analyzer: AnalyzerConfig {
                fps: default_analyzer_fps(),
                delta_threshold: default_delta_threshold(),
                contour_minimum_area_bits: default_contour_area(),
                jpeg_decode_scale: default_jpeg_decode_scale(),
            },
            event: EventConfig {
                preroll_seconds: default_preroll_seconds(),
                postroll_seconds: default_postroll_seconds(),
            },
            capture: CaptureConfig {
                path: default_capture_path(),
                timestamp_overlay: default_timestamp_overlay(),
                timestamp_font_path: default_timestamp_font_path(),
                timestamp_font_size_bits: default_timestamp_font_size(),
                video_encoding: default_video_encoding(),
                keep_images: default_keep_images(),
                save_metadata: default_save_metadata(),
                rotation: None,
            },
            stream: StreamConfig {
                ip: default_stream_ip(),
                port: default_stream_port(),
                rotation: None,
            },
            display: DisplayConfig {
                framebuffer_device: default_framebuffer_device(),
                backlight_device: default_backlight_device(),
                touch_device: default_touch_device(),
                activation_period_seconds: default_activation_period(),
                resolution: default_display_resolution(),
                rotation: None,
                jpeg_decode_scale: default_display_jpeg_decode_scale(),
            },
            system: SystemConfig {
                trim_old: default_trim_old(),
                retention_days: default_retention_days(),
                ring_buffer_capacity: default_ring_buffer_capacity(),
                event_bus_capacity: default_event_bus_capacity(),
            },
        }
    }
}

/// The default configuration passes validation.
pub proof fn lemma_default_is_valid(c: DoorcamConfig)
    requires
        spec_is_default(c),
    ensures
        spec_first_violation(c) is None,
{
}

pub fn default_camera_index() -> (r: u32)
    ensures
        r == 0,
{
    0
}

pub fn default_camera_resolution() -> (r: (u32, u32))
    ensures
        r == (640u32, 480u32),
{
    (640, 480)
}

pub fn default_camera_fps() -> (r: u32)
    ensures
        r == 30,
{
    30
}

pub fn default_camera_format() -> (r: String)
    ensures
        r@ == "MJPG"@,
{
    "MJPG".to_owned()
}

pub fn default_analyzer_fps() -> (r: u32)
    ensures
        r == 5,
{
    5
}

pub fn default_delta_threshold() -> (r: u32)
    ensures
        r == 25,
{
    25
}

pub fn default_contour_area() -> (r: u64)
    ensures
        r == DEFAULT_CONTOUR_AREA_BITS,
{
    DEFAULT_CONTOUR_AREA_BITS
}

pub fn default_jpeg_decode_scale() -> (r: u32)
    ensures
        r == 4,
{
    4
}

pub fn default_preroll_seconds() -> (r: u32)
    ensures
        r == 5,
{
    5
}

pub fn default_postroll_seconds() -> (r: u32)
    ensures
        r == 10,
{
    10
}

pub fn default_capture_path() -> (r: String)
    ensures
        r@ == "./captures"@,
{
    "./captures".to_owned()
}

pub fn default_timestamp_overlay() -> (r: bool)
    ensures
        r,
{
    true
}

pub fn default_timestamp_font_path() -> (r: String)
    ensures
        r@ == "/usr/share/fonts/truetype/dejavu/DejaVuSans.ttf"@,
{
    "/usr/share/fonts/truetype/dejavu/DejaVuSans.ttf".to_owned()
}

pub fn default_timestamp_font_size() -> (r: u32)
    ensures
        r == DEFAULT_FONT_SIZE_BITS,
{
    DEFAULT_FONT_SIZE_BITS
}

pub fn default_video_encoding() -> (r: bool)
    ensures
        r,
{
    true
}

pub fn default_keep_images() -> (r: bool)
    ensures
        !r,
{
    false
}

pub fn default_save_metadata() -> (r: bool)
    ensures
        !r,
{
    false
}

pub fn default_stream_ip() -> (r: String)
    ensures
        r@ == "0.0.0.0"@,
{
    "0.0.0.0".to_owned()
}

pub fn default_stream_port() -> (r: u16)
    ensures
        r == 8080,
{
    8080
}

pub fn default_framebuffer_device() -> (r: String)
    ensures
        r@ == "/dev/fb0"@,
{
    "/dev/fb0".to_owned()
}

pub fn default_backlight_device() -> (r: String)
    ensures
        r@ == "/sys/class/backlight/rpi_backlight/brightness"@,
{
    "/sys/class/backlight/rpi_backlight/brightness".to_owned()
}

pub fn default_touch_device() -> (r: String)
    ensures
        r@ == "/dev/input/event0"@,
{
    "/dev/input/event0".to_owned()
}

pub fn default_activation_period() -> (r: u32)
    ensures
        r == 30,
{
    30
}

pub fn default_display_resolution() -> (r: (u32, u32))
    ensures
        r == (800u32, 480u32),
{
    (800, 480)
}

pub fn default_display_jpeg_decode_scale() -> (r: u32)
    ensures
        r == 4,
{
    4
}

pub fn default_trim_old() -> (r: bool)
    ensures
        r,
{
    true
}

pub fn default_retention_days() -> (r: u32)
    ensures
        r == 7,
{
    7
}

pub fn default_ring_buffer_capacity() -> (r: usize)
    ensures
        r == 150,
{
    150
}

pub fn default_event_bus_capacity() -> (r: usize)
    ensures
        r == 100,
{
    100
}


/// A configuration is valid exactly when the camera resolution, the camera
/// and analyzer fps, the preroll and postroll, and the ring buffer and
/// event bus capacities are all greater than 0; otherwise the error names
/// the first of these, in that order, that is 0.
pub proof fn law_validation_rules(c: DoorcamConfig)
    ensures
        spec_first_violation(c) is None <==> (c.camera.resolution.0 > 0 && c.camera.resolution.1 > 0
            && c.camera.fps > 0 && c.analyzer.fps > 0 && c.event.preroll_seconds > 0 && c.event.postroll_seconds
            > 0 && c.system.ring_buffer_capacity > 0 && c.system.event_bus_capacity > 0),
        (c.camera.resolution.0 == 0 || c.camera.resolution.1 == 0) ==> spec_first_violation(c) == Some(
            "Camera resolution must be greater than 0"@,
        ),
        (c.camera.resolution.0 > 0 && c.camera.resolution.1 > 0 && c.camera.fps == 0) ==> spec_first_violation(c)
            == Some("Camera fps must be greater than 0"@),
        (c.camera.resolution.0 > 0 && c.camera.resolution.1 > 0 && c.camera.fps > 0 && c.analyzer.fps == 0)
            ==> spec_first_violation(c) == Some("Analyzer fps must be greater than 0"@),
        (c.camera.resolution.0 > 0 && c.camera.resolution.1 > 0 && c.camera.fps > 0 && c.analyzer.fps > 0
            && c.event.preroll_seconds == 0) ==> spec_first_violation(c) == Some(
            "Event preroll_seconds must be greater than 0"@,
        ),
        (c.camera.resolution.0 > 0 && c.camera.resolution.1 > 0 && c.camera.fps > 0 && c.analyzer.fps > 0
            && c.event.preroll_seconds > 0 && c.event.postroll_seconds == 0) ==> spec_first_violation(c) == Some(
            "Event postroll_seconds must be greater than 0"@,
        ),
        (c.camera.resolution.0 > 0 && c.camera.resolution.1 > 0 && c.camera.fps > 0 && c.analyzer.fps > 0
            && c.event.preroll_seconds > 0 && c.event.postroll_seconds > 0 && c.system.ring_buffer_capacity == 0)
            ==> spec_first_violation(c) == Some("Ring buffer capacity must be greater than 0"@),
        (c.camera.resolution.0 > 0 && c.camera.resolution.1 > 0 && c.camera.fps > 0 && c.analyzer.fps > 0
            && c.event.preroll_seconds > 0 && c.event.postroll_seconds > 0 && c.system.ring_buffer_capacity > 0
            && c.system.event_bus_capacity == 0) ==> spec_first_violation(c) == Some(
            "Event bus capacity must be greater than 0"@,
        ),
{
}

} // verus!
