//! Error types of the door camera and their classification: which errors a
//! component can recover from, which component an error belongs to, and how
//! severe it is.
use vstd::prelude::*;

verus! {

/// Error of the configuration loader or of configuration validation.
#[derive(Debug, Clone, PartialEq, Eq)]
pub enum ConfigError {
    /// A configuration value is unacceptable; the message says which.
    Message(String),
}

/// Main error type for the door camera.
#[derive(Debug)]
pub enum DoorcamError {
    Config(ConfigError),
    Io(std::io::Error),
    Serialization(toml::ser::Error),
    Deserialization(toml::de::Error),
    Camera(CameraError),
    Analyzer(AnalyzerError),
    Stream(StreamError),
    Display(DisplayError),
    Touch(TouchError),
    Capture(CaptureError),
    Storage(StorageError),
    EventBus(EventBusError),
    Processing(ProcessingError),
    RingBuffer(RingBufferError),
    System { message: String },
    Component { component: String, message: String },
    RecoveryFailed { component: String, attempts: u32 },
    Shutdown,
}

/// Camera-specific errors.
#[derive(Debug, Clone)]
pub enum CameraError {
    DeviceOpen { device: u32 },
    DeviceOpenWithSource { device: u32, details: String },
    UnsupportedFormat { format: String },
    Configuration { details: String },
    CaptureStream { details: String },
    NotAvailable,
    Disconnected,
    FrameTimeout { timeout: std::time::Duration },
}

/// Motion analyzer errors.
#[derive(Debug)]
pub enum AnalyzerError {
    ImageProcInit { details: String },
    BackgroundModel { details: String },
    FrameProcessing { details: String },
    MotionDetection { details: String },
    NotAvailable,
}

/// Stream server errors.
#[derive(Debug)]
pub enum StreamError {
    BindFailed { address: String, source: std::io::Error },
    StartupFailed { details: String },
    ClientConnection { details: String },
    FrameEncoding { details: String },
    Network(std::io::Error),
    Http { details: String },
}

/// Display controller errors.
#[derive(Debug)]
pub enum DisplayError {
    Framebuffer { details: String },
    FramebufferOpen { device: String, source: std::io::Error },
    Backlight { details: String },
    BacklightOpen { device: String, source: std::io::Error },
    Rendering { details: String },
    FormatConversion { details: String },
    NotAvailable,
}

/// Touch input errors.
#[derive(Debug, Clone)]
pub enum TouchError {
    DeviceOpen { device: String, details: String },
    DeviceRead { details: String },
    EventParsing { details: String },
    NotAvailable,
    Device(String),
    DeviceNotFound(String),
    PermissionDenied(String),
    UnsupportedDevice(String),
}

/// Video capture errors.
#[derive(Debug)]
pub enum CaptureError {
    DirectoryCreation { path: String, source: std::io::Error },
    FrameSave { details: String },
    VideoEncoding { details: String },
    PrerollRetrieval { details: String },
    SessionManagement { details: String },
    MetadataWrite { details: String },
}

/// Storage management errors.
#[derive(Debug)]
pub enum StorageError {
    CleanupFailed { details: String },
    DirectoryScan { path: String, source: std::io::Error },
    FileDeletion { path: String, source: std::io::Error },
    SpaceCheck { details: String },
    RetentionPolicy { details: String },
}

/// Event bus errors.
#[derive(Debug)]
pub enum EventBusError {
    PublishFailed { details: String },
    SubscribeFailed { details: String },
    ChannelClosed,
    Serialization { details: String },
}

/// Frame processing errors.
#[derive(Debug)]
pub enum ProcessingError {
    Conversion { from: String, to: String, details: String },
    Rotation { details: String },
    JpegEncoding { details: String },
    UnsupportedFormat { format: String },
    ImageLibrary { details: String },
}

/// Ring buffer errors.
#[derive(Debug)]
pub enum RingBufferError {
    Overflow { capacity: usize },
    Underflow,
    InvalidTimestamp { details: String },
    FrameRetrieval { details: String },
    Corruption { details: String },
}

/// Error severity levels for structured logging.
#[derive(Debug, Clone, Copy, PartialEq, Eq, Structural)]
pub enum ErrorSeverity {
    Info,
    Warning,
    Error,
    Critical,
}

/// The log levels that errors are reported at.
#[derive(Debug, Clone, Copy, PartialEq, Eq, Structural)]
pub enum LogLevel {
    Info,
    Warn,
    Error,
}

/// Errors that a retry can overcome: a lost or unopened camera, a frame
/// timeout, an unopened or unreadable touch device, a client connection, an
/// unopened framebuffer or backlight, a closed event channel, and I/O.
pub open spec fn spec_is_recoverable(e: DoorcamError) -> bool {
    match e {
        DoorcamError::Camera(CameraError::Disconnected) => true,
        DoorcamError::Camera(CameraError::DeviceOpen { .. }) => true,
        DoorcamError::Camera(CameraError::DeviceOpenWithSource { .. }) => true,
        DoorcamError::Camera(CameraError::FrameTimeout { .. }) => true,
        DoorcamError::Touch(TouchError::DeviceOpen { .. }) => true,
        DoorcamError::Touch(TouchError::DeviceRead { .. }) => true,
        DoorcamError::Stream(StreamError::ClientConnection { .. }) => true,
        DoorcamError::Display(DisplayError::FramebufferOpen { .. }) => true,
        DoorcamError::Display(DisplayError::BacklightOpen { .. }) => true,
        DoorcamError::EventBus(EventBusError::ChannelClosed) => true,
        DoorcamError::Io(_) => true,
        _ => false,
    }
}

/// The component that an error belongs to.
pub open spec fn spec_component_name(e: DoorcamError) -> Seq<char> {
    match e {
        DoorcamError::Camera(_) => "camera"@,
        DoorcamError::Analyzer(_) => "analyzer"@,
        DoorcamError::Stream(_) => "stream"@,
        DoorcamError::Display(_) => "display"@,
        DoorcamError::Touch(_) => "touch"@,
        DoorcamError::Capture(_) => "capture"@,
        DoorcamError::Storage(_) => "storage"@,
        DoorcamError::EventBus(_) => "event_bus"@,
        DoorcamError::Processing(_) => "processing"@,
        DoorcamError::RingBuffer(_) => "ring_buffer"@,
        DoorcamError::Config(_) => "config"@,
        DoorcamError::Component { component, .. } => component@,
        _ => "system"@,
    }
}

/// How severe an error is: a shutdown request is informational, features
/// that are not available and recoverable errors are warnings, failed
/// recovery and configuration errors are critical, the rest are errors.
pub open spec fn spec_severity(e: DoorcamError) -> ErrorSeverity {
    match e {
        DoorcamError::Shutdown => ErrorSeverity::Info,
        DoorcamError::Camera(CameraError::NotAvailable) => ErrorSeverity::Warning,
        DoorcamError::Display(DisplayError::NotAvailable) => ErrorSeverity::Warning,
        DoorcamError::Analyzer(AnalyzerError::NotAvailable) => ErrorSeverity::Warning,
        DoorcamError::RecoveryFailed { .. } => ErrorSeverity::Critical,
        DoorcamError::Config(_) => ErrorSeverity::Critical,
        _ => if spec_is_recoverable(e) {
            ErrorSeverity::Warning
        } else {
            ErrorSeverity::Error
        },
    }
}

/// The log level of a severity: critical errors are logged as errors.
pub open spec fn spec_log_level(s: ErrorSeverity) -> LogLevel {
    match s {
        ErrorSeverity::Info => LogLevel::Info,
        ErrorSeverity::Warning => LogLevel::Warn,
        ErrorSeverity::Error => LogLevel::Error,
        ErrorSeverity::Critical => LogLevel::Error,
    }
}

impl DoorcamError {
    /// A system error with a message.
    pub fn system(message: &str) -> (e: Self)
        ensures
            e matches DoorcamError::System { message: m } && m@ == message@,
    {
        DoorcamError::System { message: message.to_owned() }
    }

    /// A component error with the component's name and a message.
    pub fn component(component: &str, message: &str) -> (e: Self)
        ensures
            e matches DoorcamError::Component { component: c, message: m } && c@ == component@ && m@
                == message@,
    {
        DoorcamError::Component { component: component.to_owned(), message: message.to_owned() }
    }

    /// A recovery-failed error for a component after some attempts.
    pub fn recovery_failed(component: &str, attempts: u32) -> (e: Self)
        ensures
            e matches DoorcamError::RecoveryFailed { component: c, attempts: a } && c@ == component@
                && a == attempts,
    {
        DoorcamError::RecoveryFailed { component: component.to_owned(), attempts }
    }

    /// Whether a retry can overcome this error.
    pub fn is_recoverable(&self) -> (r: bool)
        ensures
            r == spec_is_recoverable(*self),
    {
        match self {
            DoorcamError::Camera(CameraError::Disconnected) => true,
            DoorcamError::Camera(CameraError::DeviceOpen { .. }) => true,
            DoorcamError::Camera(CameraError::DeviceOpenWithSource { .. }) => true,
            DoorcamError::Camera(CameraError::FrameTimeout { .. }) => true,
            DoorcamError::Touch(TouchError::DeviceOpen { .. }) => true,
            DoorcamError::Touch(TouchError::DeviceRead { .. }) => true,
            DoorcamError::Stream(StreamError::ClientConnection { .. }) => true,
            DoorcamError::Display(DisplayError::FramebufferOpen { .. }) => true,
            DoorcamError::Display(DisplayError::BacklightOpen { .. }) => true,
            DoorcamError::EventBus(EventBusError::ChannelClosed) => true,
            DoorcamError::Io(_) => true,
            DoorcamError::System { .. } => false,
            DoorcamError::Shutdown => false,
            DoorcamError::RecoveryFailed { .. } => false,
            _ => false,
        }
    }

    /// The name of the component that this error belongs to.
    pub fn component_name(&self) -> (name: String)
        ensures
            name@ == spec_component_name(*self),
    {
        let s: &str = match self {
            DoorcamError::Camera(_) => "camera",
            DoorcamError::Analyzer(_) => "analyzer",
            DoorcamError::Stream(_) => "stream",
            DoorcamError::Display(_) => "display",
            DoorcamError::Touch(_) => "touch",
            DoorcamError::Capture(_) => "capture",
            DoorcamError::Storage(_) => "storage",
            DoorcamError::EventBus(_) => "event_bus",
            DoorcamError::Processing(_) => "processing",
            DoorcamError::RingBuffer(_) => "ring_buffer",
            DoorcamError::Config(_) => "config",
            DoorcamError::Component { component, .. } => component.as_str(),
            _ => "system",
        };
        s.to_owned()
    }

    /// Severity of this error for logging.
    pub fn severity(&self) -> (s: ErrorSeverity)
        ensures
            s == spec_severity(*self),
    {
        match self {
            DoorcamError::Shutdown => ErrorSeverity::Info,
            DoorcamError::Camera(CameraError::NotAvailable) => ErrorSeverity::Warning,
            DoorcamError::Display(DisplayError::NotAvailable) => ErrorSeverity::Warning,
            DoorcamError::Analyzer(AnalyzerError::NotAvailable) => ErrorSeverity::Warning,
            DoorcamError::RecoveryFailed { .. } => ErrorSeverity::Critical,
            DoorcamError::Config(_) => ErrorSeverity::Critical,
            _ => if self.is_recoverable() {
                ErrorSeverity::Warning
            } else {
                ErrorSeverity::Error
            },
        }
    }
}

/// The `tracing` level (`INFO`, `WARN` or `ERROR`) that stands for a log
/// level.
pub uninterp spec fn tracing_level_of(level: LogLevel) -> tracing::Level;

/// Takes `tracing::Level`'s constants `INFO`, `WARN` and `ERROR`, one for
/// each log level. The level is named; what is stated is that the three
/// are different levels (tracing-core defines each as its own variant of
/// the level's inner enum).
#[verifier::external_body]
fn tracing_level(level: LogLevel) -> (l: tracing::Level)
    ensures
        l == tracing_level_of(level),
        forall|other: LogLevel| other != level ==> l != #[trigger] tracing_level_of(other),
{
    match level {
        LogLevel::Info => tracing::Level::INFO,
        LogLevel::Warn => tracing::Level::WARN,
        LogLevel::Error => tracing::Level::ERROR,
    }
}

impl ErrorSeverity {
    /// The log level that this severity is reported at.
    pub fn log_level(&self) -> (l: LogLevel)
        ensures
            l == spec_log_level(*self),
    {
        match self {
            ErrorSeverity::Info => LogLevel::Info,
            ErrorSeverity::Warning => LogLevel::Warn,
            ErrorSeverity::Error => LogLevel::Error,
            ErrorSeverity::Critical => LogLevel::Error,
        }
    }

    /// The `tracing` level of this severity (that of `log_level`).
    pub fn to_tracing_level(&self) -> (l: tracing::Level)
        ensures
            l == tracing_level_of(spec_log_level(*self)),
    {
        tracing_level(self.log_level())
    }
}

/// Every error that a retry can overcome is reported as a warning, and an
/// error that is reported as critical is never recoverable.
pub proof fn law_recoverable_errors_are_warnings(e: DoorcamError)
    ensures
        spec_is_recoverable(e) ==> spec_severity(e) == ErrorSeverity::Warning,
        spec_severity(e) == ErrorSeverity::Critical ==> !spec_is_recoverable(e),
        spec_log_level(spec_severity(e)) == LogLevel::Error <==> (spec_severity(e) == ErrorSeverity::Error
            || spec_severity(e) == ErrorSeverity::Critical),
{
}


/// Which errors a retry can overcome: a disconnected, unopened or timed-out
/// camera, a touch device that could not be opened or read, a lost stream
/// client, a framebuffer or backlight that could not be opened, a closed
/// event channel and any I/O error. Configuration, analysis, capture and
/// storage errors, failed recoveries and shutdowns cannot be retried away.
pub proof fn law_recoverable_kinds(e: DoorcamError)
    ensures
        e matches DoorcamError::Camera(c) ==> (spec_is_recoverable(e) <==> (c is Disconnected || c is DeviceOpen
            || c is DeviceOpenWithSource || c is FrameTimeout)),
        e matches DoorcamError::Touch(t) ==> (spec_is_recoverable(e) <==> (t is DeviceOpen || t is DeviceRead)),
        e matches DoorcamError::Stream(s) ==> (spec_is_recoverable(e) <==> s is ClientConnection),
        e matches DoorcamError::Display(d) ==> (spec_is_recoverable(e) <==> (d is FramebufferOpen
            || d is BacklightOpen)),
        e is Io ==> spec_is_recoverable(e),
        (e is Config || e is Analyzer || e is Capture || e is Storage || e is RecoveryFailed || e is Shutdown
            || e is System || e is Component) ==> !spec_is_recoverable(e),
        (e is Config || e is RecoveryFailed) ==> spec_severity(e) == ErrorSeverity::Critical,
        e is Shutdown ==> spec_severity(e) == ErrorSeverity::Info,
{
}

} // verus!
