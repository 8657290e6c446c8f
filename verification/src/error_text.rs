//! The messages of the error types.
//!
//! Each error type has a `to_string` method whose text is stated by a spec
//! function. The text of a `toml` error and the `Debug` text of a
//! `Duration` are named results of those outside functions. The text of an
//! `std::io::Error` ends a message and is not stated; for those variants the
//! spec function gives the fixed text before it, and `*_exact` is false.
use crate::error::{
    AnalyzerError, CameraError, CaptureError, ConfigError, DisplayError, DoorcamError, EventBusError,
    ProcessingError, RingBufferError, StorageError, StreamError, TouchError,
};
use crate::opaque::{duration_debug, duration_debug_text};
use crate::text::{decimal, push_decimal};
use vstd::prelude::*;

verus! {

/// Calls `<std::io::Error as Display>::fmt` (through `to_string`). Nothing
/// is claimed of the text: `std::io::Error` has no view to state it over,
/// and for an operating-system error the text comes from the system, so it
/// gets no name either.
#[verifier::external_body]
fn io_error_text(e: &std::io::Error) -> String {
    e.to_string()
}

/// The text of `<toml::ser::Error as Display>::fmt` for an error.
pub uninterp spec fn toml_ser_text(e: toml::ser::Error) -> Seq<char>;

/// Calls `<toml::ser::Error as Display>::fmt` (through `to_string`). The
/// text is named, not stated: the error has no view to state it over.
#[verifier::external_body]
fn toml_ser_error_text(e: &toml::ser::Error) -> (s: String)
    ensures
        s@ == toml_ser_text(*e),
{
    e.to_string()
}

/// The text of `<toml::de::Error as Display>::fmt` for an error.
pub uninterp spec fn toml_de_text(e: toml::de::Error) -> Seq<char>;

/// Calls `<toml::de::Error as Display>::fmt` (through `to_string`). The
/// text is named, not stated: the error has no view to state it over.
#[verifier::external_body]
fn toml_de_error_text(e: &toml::de::Error) -> (s: String)
    ensures
        s@ == toml_de_text(*e),
{
    e.to_string()
}

/// `a` followed by `b`.
fn cat(a: &str, b: &str) -> (s: String)
    ensures
        s@ == a@ + b@,
{
    let mut s = a.to_owned();
    s.append(b);
    s
}

/// `a`, `b` and `c` in a row.
fn cat3(a: &str, b: &str, c: &str) -> (s: String)
    ensures
        s@ == a@ + b@ + c@,
{
    let mut s = a.to_owned();
    s.append(b);
    s.append(c);
    s
}

/// `p` followed by a text that the contract does not know; `p` is a prefix
/// of the result.
fn cat_open(p: &str, rest: String) -> (s: String)
    ensures
        s@ == p@ + rest@,
        p@.is_prefix_of(s@),
{
    let s = cat(p, rest.as_str());
    assert(s@.subrange(0, p@.len() as int) =~= p@);
    s
}

/// A prefix stays a prefix when the same text is put before both.
pub proof fn lemma_prefix_after(p: Seq<char>, a: Seq<char>, b: Seq<char>)
    requires
        a.is_prefix_of(b),
    ensures
        (p + a).is_prefix_of(p + b),
{
    assert((p + b).subrange(0, (p + a).len() as int) =~= p + a);
}

/// The message of a camera error.
pub open spec fn camera_text(e: CameraError) -> Seq<char> {
    match e {
        CameraError::DeviceOpen { device } => "Failed to open camera device "@ + decimal(device as nat),
        CameraError::DeviceOpenWithSource { device, details } => "Failed to open camera device "@ + decimal(
            device as nat,
        ) + ": "@ + details@,
        CameraError::UnsupportedFormat { format } => "Unsupported format: "@ + format@,
        CameraError::Configuration { details } => "Failed to configure camera: "@ + details@,
        CameraError::CaptureStream { details } => "Capture stream error: "@ + details@,
        CameraError::NotAvailable => "Camera not available (feature disabled or platform unsupported)"@,
        CameraError::Disconnected => "Camera disconnected"@,
        CameraError::FrameTimeout { timeout } => "Frame timeout after "@ + duration_debug(timeout),
    }
}

impl CameraError {
    /// The message of this error.
    pub fn to_string(&self) -> (s: String)
        ensures
            s@ == camera_text(*self),
    {
        match self {
            CameraError::DeviceOpen { device } => {
                let mut s = "Failed to open camera device ".to_owned();
                push_decimal(&mut s, *device as u64);
                s
            },
            CameraError::DeviceOpenWithSource { device, details } => {
                let mut s = "Failed to open camera device ".to_owned();
                push_decimal(&mut s, *device as u64);
                s.append(": ");
                s.append(details.as_str());
                s
            },
            CameraError::UnsupportedFormat { format } => cat("Unsupported format: ", format.as_str()),
            CameraError::Configuration { details } => cat("Failed to configure camera: ", details.as_str()),
            CameraError::CaptureStream { details } => cat("Capture stream error: ", details.as_str()),
            CameraError::NotAvailable => "Camera not available (feature disabled or platform unsupported)".to_owned(),
            CameraError::Disconnected => "Camera disconnected".to_owned(),
            CameraError::FrameTimeout { timeout } => {
                let d = duration_debug_text(timeout);
                cat("Frame timeout after ", d.as_str())
            },
        }
    }
}

/// The message of a motion analyzer error.
pub open spec fn analyzer_text(e: AnalyzerError) -> Seq<char> {
    match e {
        AnalyzerError::ImageProcInit { details } => "Image processing initialization failed: "@ + details@,
        AnalyzerError::BackgroundModel { details } => "Background model creation failed: "@ + details@,
        AnalyzerError::FrameProcessing { details } => "Frame processing failed: "@ + details@,
        AnalyzerError::MotionDetection { details } => "Motion detection algorithm failed: "@ + details@,
        AnalyzerError::NotAvailable => "Feature not available (motion analysis disabled)"@,
    }
}

impl AnalyzerError {
    /// The message of this error.
    pub fn to_string(&self) -> (s: String)
        ensures
            s@ == analyzer_text(*self),
    {
        match self {
            AnalyzerError::ImageProcInit { details } => cat("Image processing initialization failed: ", details.as_str()),
            AnalyzerError::BackgroundModel { details } => cat("Background model creation failed: ", details.as_str()),
            AnalyzerError::FrameProcessing { details } => cat("Frame processing failed: ", details.as_str()),
            AnalyzerError::MotionDetection { details } => cat("Motion detection algorithm failed: ", details.as_str()),
            AnalyzerError::NotAvailable => "Feature not available (motion analysis disabled)".to_owned(),
        }
    }
}

/// The message of a stream server error.
pub open spec fn stream_text(e: StreamError) -> Seq<char> {
    match e {
        StreamError::BindFailed { address, .. } => "Failed to bind to "@ + address@ + ": "@,
        StreamError::StartupFailed { details } => "Server startup failed: "@ + details@,
        StreamError::ClientConnection { details } => "Client connection error: "@ + details@,
        StreamError::FrameEncoding { details } => "Frame encoding failed: "@ + details@,
        StreamError::Network(_) => "Network error: "@,
        StreamError::Http { details } => "HTTP server error: "@ + details@,
    }
}

/// Whether `stream_text` is the whole message.
pub open spec fn stream_text_exact(e: StreamError) -> bool {
    !(e is BindFailed || e is Network)
}

impl StreamError {
    /// The message of this error.
    pub fn to_string(&self) -> (s: String)
        ensures
            stream_text(*self).is_prefix_of(s@),
            stream_text_exact(*self) ==> s@ == stream_text(*self),
    {
        match self {
            StreamError::BindFailed { address, source } => {
                let p = cat3("Failed to bind to ", address.as_str(), ": ");
                cat_open(p.as_str(), io_error_text(source))
            },
            StreamError::StartupFailed { details } => cat("Server startup failed: ", details.as_str()),
            StreamError::ClientConnection { details } => cat("Client connection error: ", details.as_str()),
            StreamError::FrameEncoding { details } => cat("Frame encoding failed: ", details.as_str()),
            StreamError::Network(e) => cat_open("Network error: ", io_error_text(e)),
            StreamError::Http { details } => cat("HTTP server error: ", details.as_str()),
        }
    }
}

/// The message of a display error.
pub open spec fn display_text(e: DisplayError) -> Seq<char> {
    match e {
        DisplayError::Framebuffer { details } => "Framebuffer error: "@ + details@,
        DisplayError::FramebufferOpen { device, .. } => "Failed to open framebuffer device "@ + device@ + ": "@,
        DisplayError::Backlight { details } => "Backlight control error: "@ + details@,
        DisplayError::BacklightOpen { device, .. } => "Failed to open backlight device "@ + device@ + ": "@,
        DisplayError::Rendering { details } => "Frame rendering failed: "@ + details@,
        DisplayError::FormatConversion { details } => "Display format conversion failed: "@ + details@,
        DisplayError::NotAvailable => "Display not available (feature disabled)"@,
    }
}

/// Whether `display_text` is the whole message.
pub open spec fn display_text_exact(e: DisplayError) -> bool {
    !(e is FramebufferOpen || e is BacklightOpen)
}

impl DisplayError {
    /// The message of this error.
    pub fn to_string(&self) -> (s: String)
        ensures
            display_text(*self).is_prefix_of(s@),
            display_text_exact(*self) ==> s@ == display_text(*self),
    {
        match self {
            DisplayError::Framebuffer { details } => cat("Framebuffer error: ", details.as_str()),
            DisplayError::FramebufferOpen { device, source } => {
                let p = cat3("Failed to open framebuffer device ", device.as_str(), ": ");
                cat_open(p.as_str(), io_error_text(source))
            },
            DisplayError::Backlight { details } => cat("Backlight control error: ", details.as_str()),
            DisplayError::BacklightOpen { device, source } => {
                let p = cat3("Failed to open backlight device ", device.as_str(), ": ");
                cat_open(p.as_str(), io_error_text(source))
            },
            DisplayError::Rendering { details } => cat("Frame rendering failed: ", details.as_str()),
            DisplayError::FormatConversion { details } => cat("Display format conversion failed: ", details.as_str()),
            DisplayError::NotAvailable => "Display not available (feature disabled)".to_owned(),
        }
    }
}

/// The message of a touch input error.
pub open spec fn touch_text(e: TouchError) -> Seq<char> {
    match e {
        TouchError::DeviceOpen { device, details } => "Failed to open touch device "@ + device@ + ": "@ + details@,
        TouchError::DeviceRead { details } => "Touch device read error: "@ + details@,
        TouchError::EventParsing { details } => "Event parsing failed: "@ + details@,
        TouchError::NotAvailable => "Touch device not available"@,
        TouchError::Device(m) => "Device error: "@ + m@,
        TouchError::DeviceNotFound(m) => "Device not found: "@ + m@,
        TouchError::PermissionDenied(m) => "Permission denied: "@ + m@,
        TouchError::UnsupportedDevice(m) => "Unsupported device: "@ + m@,
    }
}

impl TouchError {
    /// The message of this error.
    pub fn to_string(&self) -> (s: String)
        ensures
            s@ == touch_text(*self),
    {
        match self {
            TouchError::DeviceOpen { device, details } => {
                let mut s = cat3("Failed to open touch device ", device.as_str(), ": ");
                s.append(details.as_str());
                s
            },
            TouchError::DeviceRead { details } => cat("Touch device read error: ", details.as_str()),
            TouchError::EventParsing { details } => cat("Event parsing failed: ", details.as_str()),
            TouchError::NotAvailable => "Touch device not available".to_owned(),
            TouchError::Device(m) => cat("Device error: ", m.as_str()),
            TouchError::DeviceNotFound(m) => cat("Device not found: ", m.as_str()),
            TouchError::PermissionDenied(m) => cat("Permission denied: ", m.as_str()),
            TouchError::UnsupportedDevice(m) => cat("Unsupported device: ", m.as_str()),
        }
    }
}

/// The message of a video capture error.
pub open spec fn capture_text(e: CaptureError) -> Seq<char> {
    match e {
        CaptureError::DirectoryCreation { path, .. } => "Failed to create capture directory "@ + path@ + ": "@,
        CaptureError::FrameSave { details } => "Frame save failed: "@ + details@,
        CaptureError::VideoEncoding { details } => "Video encoding failed: "@ + details@,
        CaptureError::PrerollRetrieval { details } => "Preroll frame retrieval failed: "@ + details@,
        CaptureError::SessionManagement { details } => "Capture session management error: "@ + details@,
        CaptureError::MetadataWrite { details } => "Metadata write failed: "@ + details@,
    }
}

/// Whether `capture_text` is the whole message.
pub open spec fn capture_text_exact(e: CaptureError) -> bool {
    !(e is DirectoryCreation)
}

impl CaptureError {
    /// The message of this error.
    pub fn to_string(&self) -> (s: String)
        ensures
            capture_text(*self).is_prefix_of(s@),
            capture_text_exact(*self) ==> s@ == capture_text(*self),
    {
        match self {
            CaptureError::DirectoryCreation { path, source } => {
                let p = cat3("Failed to create capture directory ", path.as_str(), ": ");
                cat_open(p.as_str(), io_error_text(source))
            },
            CaptureError::FrameSave { details } => cat("Frame save failed: ", details.as_str()),
            CaptureError::VideoEncoding { details } => cat("Video encoding failed: ", details.as_str()),
            CaptureError::PrerollRetrieval { details } => cat("Preroll frame retrieval failed: ", details.as_str()),
            CaptureError::SessionManagement { details } => cat("Capture session management error: ", details.as_str()),
            CaptureError::MetadataWrite { details } => cat("Metadata write failed: ", details.as_str()),
        }
    }
}

/// The message of a storage error.
pub open spec fn storage_text(e: StorageError) -> Seq<char> {
    match e {
        StorageError::CleanupFailed { details } => "Cleanup operation failed: "@ + details@,
        StorageError::DirectoryScan { path, .. } => "Directory scan failed for "@ + path@ + ": "@,
        StorageError::FileDeletion { path, .. } => "File deletion failed for "@ + path@ + ": "@,
        StorageError::SpaceCheck { details } => "Storage space check failed: "@ + details@,
        StorageError::RetentionPolicy { details } => "Retention policy validation failed: "@ + details@,
    }
}

/// Whether `storage_text` is the whole message.
pub open spec fn storage_text_exact(e: StorageError) -> bool {
    !(e is DirectoryScan || e is FileDeletion)
}

impl StorageError {
    /// The message of this error.
    pub fn to_string(&self) -> (s: String)
        ensures
            storage_text(*self).is_prefix_of(s@),
            storage_text_exact(*self) ==> s@ == storage_text(*self),
    {
        match self {
            StorageError::CleanupFailed { details } => cat("Cleanup operation failed: ", details.as_str()),
            StorageError::DirectoryScan { path, source } => {
                let p = cat3("Directory scan failed for ", path.as_str(), ": ");
                cat_open(p.as_str(), io_error_text(source))
            },
            StorageError::FileDeletion { path, source } => {
                let p = cat3("File deletion failed for ", path.as_str(), ": ");
                cat_open(p.as_str(), io_error_text(source))
            },
            StorageError::SpaceCheck { details } => cat("Storage space check failed: ", details.as_str()),
            StorageError::RetentionPolicy { details } => cat("Retention policy validation failed: ", details.as_str()),
        }
    }
}

/// The message of an event bus error.
pub open spec fn event_bus_text(e: EventBusError) -> Seq<char> {
    match e {
        EventBusError::PublishFailed { details } => "Failed to publish event: "@ + details@,
        EventBusError::SubscribeFailed { details } => "Failed to subscribe to events: "@ + details@,
        EventBusError::ChannelClosed => "Event channel closed"@,
        EventBusError::Serialization { details } => "Event serialization failed: "@ + details@,
    }
}

impl EventBusError {
    /// The message of this error.
    pub fn to_string(&self) -> (s: String)
        ensures
            s@ == event_bus_text(*self),
    {
        match self {
            EventBusError::PublishFailed { details } => cat("Failed to publish event: ", details.as_str()),
            EventBusError::SubscribeFailed { details } => cat("Failed to subscribe to events: ", details.as_str()),
            EventBusError::ChannelClosed => "Event channel closed".to_owned(),
            EventBusError::Serialization { details } => cat("Event serialization failed: ", details.as_str()),
        }
    }
}

/// The message of a frame processing error.
pub open spec fn processing_text(e: ProcessingError) -> Seq<char> {
    match e {
        ProcessingError::Conversion { from, to, details } => "Frame conversion failed from "@ + from@ + " to "@
            + to@ + ": "@ + details@,
        ProcessingError::Rotation { details } => "Frame rotation failed: "@ + details@,
        ProcessingError::JpegEncoding { details } => "JPEG encoding failed: "@ + details@,
        ProcessingError::UnsupportedFormat { format } => "Frame format not supported: "@ + format@,
        ProcessingError::ImageLibrary { details } => "Image processing library error: "@ + details@,
    }
}

impl ProcessingError {
    /// The message of this error.
    pub fn to_string(&self) -> (s: String)
        ensures
            s@ == processing_text(*self),
    {
        match self {
            ProcessingError::Conversion { from, to, details } => {
                let mut s = cat3("Frame conversion failed from ", from.as_str(), " to ");
                s.append(to.as_str());
                s.append(": ");
                s.append(details.as_str());
                s
            },
            ProcessingError::Rotation { details } => cat("Frame rotation failed: ", details.as_str()),
            ProcessingError::JpegEncoding { details } => cat("JPEG encoding failed: ", details.as_str()),
            ProcessingError::UnsupportedFormat { format } => cat("Frame format not supported: ", format.as_str()),
            ProcessingError::ImageLibrary { details } => cat("Image processing library error: ", details.as_str()),
        }
    }
}

/// The message of a ring buffer error.
pub open spec fn ring_buffer_text(e: RingBufferError) -> Seq<char> {
    match e {
        RingBufferError::Overflow { capacity } => "Buffer overflow: attempted to store more than "@ + decimal(
            capacity as nat,
        ) + " frames"@,
        RingBufferError::Underflow => "Buffer underflow: no frames available"@,
        RingBufferError::InvalidTimestamp { details } => "Invalid frame timestamp: "@ + details@,
        RingBufferError::FrameRetrieval { details } => "Frame retrieval failed: "@ + details@,
        RingBufferError::Corruption { details } => "Buffer corruption detected: "@ + details@,
    }
}

impl RingBufferError {
    /// The message of this error.
    pub fn to_string(&self) -> (s: String)
        ensures
            s@ == ring_buffer_text(*self),
    {
        match self {
            RingBufferError::Overflow { capacity } => {
                let mut s = "Buffer overflow: attempted to store more than ".to_owned();
                push_decimal(&mut s, *capacity as u64);
                s.append(" frames");
                s
            },
            RingBufferError::Underflow => "Buffer underflow: no frames available".to_owned(),
            RingBufferError::InvalidTimestamp { details } => cat("Invalid frame timestamp: ", details.as_str()),
            RingBufferError::FrameRetrieval { details } => cat("Frame retrieval failed: ", details.as_str()),
            RingBufferError::Corruption { details } => cat("Buffer corruption detected: ", details.as_str()),
        }
    }
}

/// The message of a configuration error: the message it carries.
pub open spec fn config_text(e: ConfigError) -> Seq<char> {
    match e {
        ConfigError::Message(m) => m@,
    }
}

impl ConfigError {
    /// The message of this error.
    pub fn to_string(&self) -> (s: String)
        ensures
            s@ == config_text(*self),
    {
        match self {
            ConfigError::Message(m) => m.clone(),
        }
    }
}

/// The message of an error of the door camera.
pub open spec fn doorcam_text(e: DoorcamError) -> Seq<char> {
    match e {
        DoorcamError::Config(c) => "Configuration error: "@ + config_text(c),
        DoorcamError::Io(_) => "IO error: "@,
        DoorcamError::Serialization(e) => "Serialization error: "@ + toml_ser_text(e),
        DoorcamError::Deserialization(e) => "Deserialization error: "@ + toml_de_text(e),
        DoorcamError::Camera(c) => "Camera error: "@ + camera_text(c),
        DoorcamError::Analyzer(a) => "Motion analysis error: "@ + analyzer_text(a),
        DoorcamError::Stream(s) => "Stream server error: "@ + stream_text(s),
        DoorcamError::Display(d) => "Display error: "@ + display_text(d),
        DoorcamError::Touch(t) => "Touch input error: "@ + touch_text(t),
        DoorcamError::Capture(c) => "Video capture error: "@ + capture_text(c),
        DoorcamError::Storage(s) => "Storage error: "@ + storage_text(s),
        DoorcamError::EventBus(b) => "Event bus error: "@ + event_bus_text(b),
        DoorcamError::Processing(p) => "Frame processing error: "@ + processing_text(p),
        DoorcamError::RingBuffer(r) => "Ring buffer error: "@ + ring_buffer_text(r),
        DoorcamError::System { message } => "System error: "@ + message@,
        DoorcamError::Component { component, message } => "Component error in "@ + component@ + ": "@ + message@,
        DoorcamError::RecoveryFailed { component, attempts } => "Recovery failed for "@ + component@ + " after "@
            + decimal(attempts as nat) + " attempts"@,
        DoorcamError::Shutdown => "Graceful shutdown requested"@,
    }
}

/// Whether `doorcam_text` is the whole message.
pub open spec fn doorcam_text_exact(e: DoorcamError) -> bool {
    match e {
        DoorcamError::Io(_) => false,
        DoorcamError::Stream(s) => stream_text_exact(s),
        DoorcamError::Display(d) => display_text_exact(d),
        DoorcamError::Capture(c) => capture_text_exact(c),
        DoorcamError::Storage(s) => storage_text_exact(s),
        _ => true,
    }
}

/// `p` before an inner message whose stated text is a prefix of it (and all
/// of it when exact).
fn wrap(p: &str, inner: String, Ghost(text): Ghost<Seq<char>>, Ghost(exact): Ghost<bool>) -> (s: String)
    requires
        text.is_prefix_of(inner@),
        exact ==> inner@ == text,
    ensures
        (p@ + text).is_prefix_of(s@),
        exact ==> s@ == p@ + text,
{
    let s = cat(p, inner.as_str());
    proof {
        lemma_prefix_after(p@, text, inner@);
    }
    s
}

impl DoorcamError {
    /// The message of this error.
    pub fn to_string(&self) -> (s: String)
        ensures
            doorcam_text(*self).is_prefix_of(s@),
            doorcam_text_exact(*self) ==> s@ == doorcam_text(*self),
    {
        let s = match self {
            DoorcamError::Config(c) => cat("Configuration error: ", c.to_string().as_str()),
            DoorcamError::Io(e) => cat_open("IO error: ", io_error_text(e)),
            DoorcamError::Serialization(e) => cat("Serialization error: ", toml_ser_error_text(e).as_str()),
            DoorcamError::Deserialization(e) => cat("Deserialization error: ", toml_de_error_text(e).as_str()),
            DoorcamError::Camera(c) => cat("Camera error: ", c.to_string().as_str()),
            DoorcamError::Analyzer(a) => cat("Motion analysis error: ", a.to_string().as_str()),
            DoorcamError::Stream(e) => wrap(
                "Stream server error: ",
                e.to_string(),
                Ghost(stream_text(*e)),
                Ghost(stream_text_exact(*e)),
            ),
            DoorcamError::Display(d) => wrap(
                "Display error: ",
                d.to_string(),
                Ghost(display_text(*d)),
                Ghost(display_text_exact(*d)),
            ),
            DoorcamError::Touch(t) => cat("Touch input error: ", t.to_string().as_str()),
            DoorcamError::Capture(c) => wrap(
                "Video capture error: ",
                c.to_string(),
                Ghost(capture_text(*c)),
                Ghost(capture_text_exact(*c)),
            ),
            DoorcamError::Storage(e) => wrap(
                "Storage error: ",
                e.to_string(),
                Ghost(storage_text(*e)),
                Ghost(storage_text_exact(*e)),
            ),
            DoorcamError::EventBus(b) => cat("Event bus error: ", b.to_string().as_str()),
            DoorcamError::Processing(p) => cat("Frame processing error: ", p.to_string().as_str()),
            DoorcamError::RingBuffer(r) => cat("Ring buffer error: ", r.to_string().as_str()),
            DoorcamError::System { message } => cat("System error: ", message.as_str()),
            DoorcamError::Component { component, message } => {
                let mut s = cat3("Component error in ", component.as_str(), ": ");
                s.append(message.as_str());
                s
            },
            DoorcamError::RecoveryFailed { component, attempts } => {
                let mut s = cat3("Recovery failed for ", component.as_str(), " after ");
                push_decimal(&mut s, *attempts as u64);
                s.append(" attempts");
                s
            },
            DoorcamError::Shutdown => "Graceful shutdown requested".to_owned(),
        };
        proof {
            if doorcam_text_exact(*self) {
                assert(s@.subrange(0, s@.len() as int) =~= s@);
            }
        }
        s
    }
}

} // verus!
