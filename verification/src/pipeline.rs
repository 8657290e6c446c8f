//! Descriptions of the media pipelines: the camera capture pipeline, the
//! motion analyser's decode-and-scale pipeline, the display pipeline and the
//! WAL export encoder, each as the text that GStreamer parses.
use crate::config::{CameraConfig, DisplayConfig, Rotation};
use crate::text::{decimal, push_decimal};
use vstd::prelude::*;

verus! {

/// The capture pipeline: MJPEG from a V4L2 device at the configured size
/// and frame rate, into an application sink.
pub open spec fn camera_pipeline(index: u32, width: u32, height: u32, fps: u32) -> Seq<char> {
    "v4l2src device=/dev/video"@ + decimal(index as nat)
        + " io-mode=mmap do-timestamp=true ! image/jpeg,width="@ + decimal(width as nat)
        + ",height="@ + decimal(height as nat)
        + ",framerate="@ + decimal(fps as nat)
        + "/1 ! queue max-size-buffers=4 leaky=downstream ! appsink name=sink sync=false max-buffers=10 drop=false qos=false enable-last-sample=false emit-signals=false"@
}

/// The capture pipeline for a camera configuration.
pub fn camera_pipeline_description(config: &CameraConfig) -> (s: String)
    ensures
        s@ == camera_pipeline(config.index, config.resolution.0, config.resolution.1, config.fps),
{
    let mut s = "v4l2src device=/dev/video".to_owned();
    push_decimal(&mut s, config.index as u64);
    s.append(" io-mode=mmap do-timestamp=true ! image/jpeg,width=");
    push_decimal(&mut s, config.resolution.0 as u64);
    s.append(",height=");
    push_decimal(&mut s, config.resolution.1 as u64);
    s.append(",framerate=");
    push_decimal(&mut s, config.fps as u64);
    s.append(
        "/1 ! queue max-size-buffers=4 leaky=downstream ! appsink name=sink sync=false max-buffers=10 drop=false qos=false enable-last-sample=false emit-signals=false",
    );
    s
}

/// The motion analyser's pipeline: decode JPEG, convert to 8-bit grey and
/// scale to the analysis size, keeping only the newest frame.
pub open spec fn preprocessing_pipeline(width: u32, height: u32) -> Seq<char> {
    "appsrc name=src format=time is-live=true caps=image/jpeg ! jpegdec ! videoconvert ! video/x-raw,format=GRAY8 ! videoscale method=0 ! video/x-raw,format=GRAY8,width="@
        + decimal(width as nat) + ",height="@ + decimal(height as nat)
        + " ! appsink name=sink sync=false max-buffers=1 drop=true"@
}

/// The motion analyser's pipeline for an analysis size.
pub fn preprocessing_pipeline_description(width: u32, height: u32) -> (s: String)
    ensures
        s@ == preprocessing_pipeline(width, height),
{
    let mut s = "appsrc name=src format=time is-live=true caps=image/jpeg ! jpegdec ! videoconvert ! video/x-raw,format=GRAY8 ! videoscale method=0 ! video/x-raw,format=GRAY8,width=".to_owned();
    push_decimal(&mut s, width as u64);
    s.append(",height=");
    push_decimal(&mut s, height as u64);
    s.append(" ! appsink name=sink sync=false max-buffers=1 drop=true");
    s
}

/// The size to scale to before rotating, so that the rotated picture has
/// the display's size: a quarter turn swaps width and height.
pub open spec fn spec_pre_rotation_size(resolution: (u32, u32), rotation: Option<Rotation>) -> (u32, u32) {
    match rotation {
        Some(Rotation::Rotate90) => (resolution.1, resolution.0),
        Some(Rotation::Rotate270) => (resolution.1, resolution.0),
        _ => resolution,
    }
}

/// The size to scale to before rotating.
pub fn pre_rotation_size(resolution: (u32, u32), rotation: Option<Rotation>) -> (r: (u32, u32))
    ensures
        r == spec_pre_rotation_size(resolution, rotation),
{
    match rotation {
        Some(Rotation::Rotate90) => (resolution.1, resolution.0),
        Some(Rotation::Rotate270) => (resolution.1, resolution.0),
        _ => resolution,
    }
}

/// The `videoflip` method of a rotation.
pub open spec fn spec_flip_method(rotation: Rotation) -> Seq<char> {
    match rotation {
        Rotation::Rotate90 => "clockwise"@,
        Rotation::Rotate180 => "rotate-180"@,
        Rotation::Rotate270 => "counterclockwise"@,
    }
}

/// The `videoflip` method of a rotation.
pub fn flip_method(rotation: Rotation) -> (s: &'static str)
    ensures
        s@ == spec_flip_method(rotation),
{
    match rotation {
        Rotation::Rotate90 => "clockwise",
        Rotation::Rotate180 => "rotate-180",
        Rotation::Rotate270 => "counterclockwise",
    }
}

/// The display pipeline: decode JPEG, scale to the pre-rotation size,
/// rotate when the display is mounted turned, and write RGB565 to the
/// framebuffer device.
pub open spec fn display_pipeline(
    resolution: (u32, u32),
    rotation: Option<Rotation>,
    framebuffer_device: Seq<char>,
) -> Seq<char> {
    let size = spec_pre_rotation_size(resolution, rotation);
    "appsrc name=src format=bytes is-live=true caps=image/jpeg ! queue max-size-buffers=1 leaky=downstream ! jpegdec"@
        + " ! videoconvert ! videoscale method=nearest-neighbour ! video/x-raw,width="@
        + decimal(size.0 as nat) + ",height="@ + decimal(size.1 as nat)
        + match rotation {
        Some(r) => " ! videoflip method="@ + spec_flip_method(r),
        None => Seq::empty(),
    } + " ! videoconvert ! video/x-raw,format=RGB16 ! fbdevsink device="@ + framebuffer_device
        + " sync=false max-lateness=-1 async=false"@
}

/// The display pipeline for a display configuration.
pub fn display_pipeline_description(config: &DisplayConfig) -> (s: String)
    ensures
        s@ == display_pipeline(config.resolution, config.rotation, config.framebuffer_device@),
{
    let size = pre_rotation_size(config.resolution, config.rotation);
    let mut s = "appsrc name=src format=bytes is-live=true caps=image/jpeg ! queue max-size-buffers=1 leaky=downstream ! jpegdec".to_owned();
    s.append(" ! videoconvert ! videoscale method=nearest-neighbour ! video/x-raw,width=");
    push_decimal(&mut s, size.0 as u64);
    s.append(",height=");
    push_decimal(&mut s, size.1 as u64);
    let ghost before_flip = s@;
    match config.rotation {
        Some(r) => {
            s.append(" ! videoflip method=");
            s.append(flip_method(r));
        },
        None => {},
    }
    let ghost after_flip = s@;
    s.append(" ! videoconvert ! video/x-raw,format=RGB16 ! fbdevsink device=");
    s.append(config.framebuffer_device.as_str());
    s.append(" sync=false max-lateness=-1 async=false");
    proof {
        let tail = match config.rotation {
            Some(r) => " ! videoflip method="@ + spec_flip_method(r),
            None => Seq::<char>::empty(),
        };
        assert(after_flip =~= before_flip + tail);
    }
    s
}

/// The WAL export encoder: JPEG frames at thirty per second, decoded and
/// re-encoded as H.264 in an MP4 file at `location`.
pub open spec fn export_pipeline(location: Seq<char>) -> Seq<char> {
    "appsrc name=src format=time is-live=false do-timestamp=true caps=image/jpeg,framerate=30/1 ! jpegparse ! jpegdec ! videoconvert ! video/x-raw,format=I420 ! x264enc speed-preset=medium bitrate=10000 key-int-max=60 ! video/x-h264,stream-format=byte-stream,alignment=au,profile=high ! h264parse config-interval=1 ! mp4mux faststart=true ! filesink location="@
        + location
}

/// The WAL export encoder writing to `location`.
pub fn export_pipeline_description(location: &str) -> (s: String)
    ensures
        s@ == export_pipeline(location@),
{
    let mut s = "appsrc name=src format=time is-live=false do-timestamp=true caps=image/jpeg,framerate=30/1 ! jpegparse ! jpegdec ! videoconvert ! video/x-raw,format=I420 ! x264enc speed-preset=medium bitrate=10000 key-int-max=60 ! video/x-h264,stream-format=byte-stream,alignment=au,profile=high ! h264parse config-interval=1 ! mp4mux faststart=true ! filesink location=".to_owned();
    s.append(location);
    s
}

} // verus!
