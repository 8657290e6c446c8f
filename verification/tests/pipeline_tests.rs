use doorcam::config::{DoorcamConfig, Rotation};
use doorcam::encoder::{ffmpeg_command_args, EncodeProgress};
use doorcam::pipeline::{
    camera_pipeline_description, display_pipeline_description, export_pipeline_description, flip_method,
    pre_rotation_size, preprocessing_pipeline_description,
};

#[test]
fn camera_pipeline_for_the_default_camera() {
    let config = DoorcamConfig::default();
    assert_eq!(
        camera_pipeline_description(&config.camera),
        "v4l2src device=/dev/video0 io-mode=mmap do-timestamp=true ! image/jpeg,width=640,height=480,framerate=30/1 ! queue max-size-buffers=4 leaky=downstream ! appsink name=sink sync=false max-buffers=10 drop=false qos=false enable-last-sample=false emit-signals=false"
    );
}

#[test]
fn preprocessing_pipeline_scales_to_the_analysis_size() {
    assert_eq!(
        preprocessing_pipeline_description(320, 180),
        "appsrc name=src format=time is-live=true caps=image/jpeg ! jpegdec ! videoconvert ! video/x-raw,format=GRAY8 ! videoscale method=0 ! video/x-raw,format=GRAY8,width=320,height=180 ! appsink name=sink sync=false max-buffers=1 drop=true"
    );
}

#[test]
fn quarter_turns_swap_the_scaled_size() {
    assert_eq!(pre_rotation_size((800, 480), Some(Rotation::Rotate90)), (480, 800));
    assert_eq!(pre_rotation_size((800, 480), Some(Rotation::Rotate270)), (480, 800));
    assert_eq!(pre_rotation_size((800, 480), Some(Rotation::Rotate180)), (800, 480));
    assert_eq!(pre_rotation_size((800, 480), None), (800, 480));
    assert_eq!(flip_method(Rotation::Rotate90), "clockwise");
    assert_eq!(flip_method(Rotation::Rotate180), "rotate-180");
    assert_eq!(flip_method(Rotation::Rotate270), "counterclockwise");
}

#[test]
fn display_pipeline_with_and_without_rotation() {
    let mut display = DoorcamConfig::default().display;
    display.resolution = (800, 480);
    display.framebuffer_device = "/dev/fb0".to_string();
    display.rotation = None;
    assert_eq!(
        display_pipeline_description(&display),
        "appsrc name=src format=bytes is-live=true caps=image/jpeg ! queue max-size-buffers=1 leaky=downstream ! jpegdec ! videoconvert ! videoscale method=nearest-neighbour ! video/x-raw,width=800,height=480 ! videoconvert ! video/x-raw,format=RGB16 ! fbdevsink device=/dev/fb0 sync=false max-lateness=-1 async=false"
    );
    display.rotation = Some(Rotation::Rotate90);
    assert_eq!(
        display_pipeline_description(&display),
        "appsrc name=src format=bytes is-live=true caps=image/jpeg ! queue max-size-buffers=1 leaky=downstream ! jpegdec ! videoconvert ! videoscale method=nearest-neighbour ! video/x-raw,width=480,height=800 ! videoflip method=clockwise ! videoconvert ! video/x-raw,format=RGB16 ! fbdevsink device=/dev/fb0 sync=false max-lateness=-1 async=false"
    );
}

#[test]
fn export_pipeline_writes_to_the_location() {
    let s = export_pipeline_description("/tmp/out.mp4");
    assert!(s.starts_with("appsrc name=src format=time is-live=false do-timestamp=true caps=image/jpeg,framerate=30/1 ! jpegparse"));
    assert!(s.ends_with("! mp4mux faststart=true ! filesink location=/tmp/out.mp4"));
}

#[test]
fn ffmpeg_arguments_end_with_the_video_path() {
    let args = ffmpeg_command_args("/captures/e1.mp4");
    assert_eq!(args.len(), 27);
    assert_eq!(args[0], "-hide_banner");
    assert_eq!(&args[8..10], &["-i".to_string(), "pipe:0".to_string()]);
    assert_eq!(&args[12..14], &["-c:v".to_string(), "h264_v4l2m2m".to_string()]);
    assert_eq!(args[26], "/captures/e1.mp4");
}

#[test]
fn frames_are_paced_by_their_timestamps() {
    let mut progress = EncodeProgress::new();
    let first = progress.next_frame(1_000);
    assert_eq!(first.wait_nanos, None);
    assert!(!first.report_progress);
    let second = progress.next_frame(34_333_333);
    assert_eq!(second.wait_nanos, Some(34_332_333));
    let same = progress.next_frame(34_333_333);
    assert_eq!(same.wait_nanos, None);
    let earlier = progress.next_frame(10);
    assert_eq!(earlier.wait_nanos, None);
    assert_eq!(progress.frames_written, 4);
    assert_eq!(progress.last_frame_nanos, Some(10));
    let mut reports = Vec::new();
    for i in 4..61u64 {
        if progress.next_frame(i).report_progress {
            reports.push(i);
        }
    }
    assert_eq!(reports, vec![30, 60]);
}
