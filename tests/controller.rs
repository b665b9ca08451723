use nokhwa::{
    CameraFormat, CameraInfo, CaptureController, DeviceProperty, DeviceReply, DeviceRequest,
    FrameFormat, NokhwaError, Resolution, SetFailure,
};

/// What the simulated device reports as its format: width, height, code.
type Native = (u32, u32, [u8; 4]);

#[derive(Default)]
struct SimDevice {
    width: u32,
    height: u32,
    fourcc: [u8; 4],
    fps: u32,
    fail_read_format: bool,
    fail_read_fps: bool,
    fail_set_format: bool,
    fail_set_fps: bool,
    fail_stream: bool,
    fail_restore_format: bool,
    fail_restore_fps: bool,
    streams_opened: u32,
    device_calls: u32,
    stream_bound_to: Option<(Native, u32)>,
}

impl SimDevice {
    fn at(width: u32, height: u32, fourcc: &[u8; 4], fps: u32) -> SimDevice {
        SimDevice { width, height, fourcc: *fourcc, fps, ..SimDevice::default() }
    }

    fn native(&self) -> Native {
        (self.width, self.height, self.fourcc)
    }

    fn refused(value: String) -> DeviceReply<Native, u32> {
        DeviceReply::Applied(Err(SetFailure { value, error: "refused".to_string() }))
    }
}

type Ctl = CaptureController<Native, u32>;

fn run(ctl: &mut Ctl, dev: &mut SimDevice, first: DeviceRequest<Native, u32>) -> Result<(), NokhwaError> {
    let mut req = first;
    loop {
        if !matches!(req, DeviceRequest::Finished(_)) {
            dev.device_calls += 1;
        }
        let reply = match req {
            DeviceRequest::Finished(r) => return r,
            DeviceRequest::ReadFormat => DeviceReply::FormatRead(if dev.fail_read_format {
                Err("no format".to_string())
            } else {
                Ok(dev.native())
            }),
            DeviceRequest::ReadFramerate => DeviceReply::FramerateRead(if dev.fail_read_fps {
                Err("no params".to_string())
            } else {
                Ok(dev.fps)
            }),
            DeviceRequest::ApplyFormat(f) => {
                if dev.fail_set_format {
                    SimDevice::refused(format!("{}x{}", f.width(), f.height()))
                } else {
                    dev.width = f.width();
                    dev.height = f.height();
                    dev.fourcc = f.format().fourcc();
                    DeviceReply::Applied(Ok(()))
                }
            }
            DeviceRequest::ApplyFramerate(n) => {
                if dev.fail_set_fps {
                    SimDevice::refused(format!("{} fps", n))
                } else {
                    dev.fps = n;
                    DeviceReply::Applied(Ok(()))
                }
            }
            DeviceRequest::OpenStream => {
                if dev.fail_stream {
                    DeviceReply::StreamOpened(Err("no buffers".to_string()))
                } else {
                    dev.streams_opened += 1;
                    dev.stream_bound_to = Some((dev.native(), dev.fps));
                    DeviceReply::StreamOpened(Ok(()))
                }
            }
            DeviceRequest::RestoreFormat((w, h, c)) => {
                if dev.fail_restore_format {
                    SimDevice::refused(format!("{}x{}", w, h))
                } else {
                    dev.width = w;
                    dev.height = h;
                    dev.fourcc = c;
                    DeviceReply::Applied(Ok(()))
                }
            }
            DeviceRequest::RestoreFramerate(p) => {
                if dev.fail_restore_fps {
                    SimDevice::refused(format!("{} fps", p))
                } else {
                    dev.fps = p;
                    DeviceReply::Applied(Ok(()))
                }
            }
        };
        req = ctl.step(reply);
    }
}

fn fmt(w: u32, h: u32, f: FrameFormat, fps: u32) -> CameraFormat {
    CameraFormat::new(Resolution::new(w, h), f, fps)
}

/// A controller streaming at 1280x720, MJPEG, 30 fps on a simulated device.
fn streaming_720p() -> (Ctl, SimDevice) {
    let mut ctl = Ctl::new();
    let mut dev = SimDevice::at(320, 240, b"YUYV", 10);
    let r = ctl.set_camera_format(fmt(1280, 720, FrameFormat::MJPEG, 30));
    assert_eq!(run(&mut ctl, &mut dev, r), Ok(()));
    let r = ctl.open_stream();
    assert_eq!(run(&mut ctl, &mut dev, r), Ok(()));
    assert!(ctl.is_stream_open());
    (ctl, dev)
}

#[test]
fn fourcc_codes() {
    assert_eq!(&FrameFormat::MJPEG.fourcc(), b"MJPG");
    assert_eq!(&FrameFormat::YUYV.fourcc(), b"YUYV");
}

#[test]
fn default_format_values() {
    let d = CameraFormat::default_format();
    assert_eq!(d.resolution(), Resolution::new(640, 480));
    assert_eq!(d.format(), FrameFormat::MJPEG);
    assert_eq!(d.framerate(), 15);
}

#[test]
fn format_setters_change_one_field() {
    let mut f = fmt(1, 2, FrameFormat::YUYV, 3);
    f.set_resolution(Resolution::new(7, 8));
    assert_eq!(f, fmt(7, 8, FrameFormat::YUYV, 3));
    f.set_format(FrameFormat::MJPEG);
    assert_eq!(f, fmt(7, 8, FrameFormat::MJPEG, 3));
    f.set_framerate(60);
    assert_eq!(f, fmt(7, 8, FrameFormat::MJPEG, 60));
    assert_eq!((f.width(), f.height()), (7, 8));
}

#[test]
fn property_names() {
    assert_eq!(DeviceProperty::Capabilities.name(), "Capabilities");
    assert_eq!(DeviceProperty::ResolutionFrameFormat.name(), "Resolution, FrameFormat");
    assert_eq!(DeviceProperty::Framerate.name(), "Framerate");
    assert_eq!(
        DeviceProperty::UndoResolutionFrameFormat.name(),
        "Attempt undo due to stream acquisition failure. Resolution, FrameFormat"
    );
    assert_eq!(
        DeviceProperty::UndoFramerate.name(),
        "Attempt undo due to stream acquisition failure. Framerate"
    );
    assert!(DeviceProperty::UndoFramerate.is_undo());
    assert!(!DeviceProperty::Framerate.is_undo());
}

#[test]
fn camera_info_identity_is_index() {
    let a = CameraInfo::new("Cam".to_string(), "".to_string(), "uvcvideo".to_string(), 0);
    let b = CameraInfo::new("Other".to_string(), "x".to_string(), "y".to_string(), 0);
    let c = CameraInfo::new("Cam".to_string(), "".to_string(), "uvcvideo".to_string(), 1);
    assert!(a.same_device(&b));
    assert!(!a.same_device(&c));
    assert_eq!(c.index(), 1);
}

#[test]
fn init_default_then_set_resolution() {
    let mut ctl = Ctl::new();
    let mut dev = SimDevice::at(1920, 1080, b"YUYV", 5);
    let r = ctl.init_camera_format_default(false);
    assert_eq!(run(&mut ctl, &mut dev, r), Ok(()));
    let cached = ctl.get_camera_format().unwrap();
    assert_eq!(cached, CameraFormat::default_format());
    assert!(cached.framerate() > 0);
    let r = ctl.set_resolution(Resolution::new(640, 480));
    assert_eq!(run(&mut ctl, &mut dev, r), Ok(()));
    assert_eq!((dev.width, dev.height), (640, 480));
    assert_eq!(ctl.get_resolution(), Some(Resolution::new(640, 480)));
    assert_eq!(ctl.get_frameformat(), Some(cached.format()));
    assert_eq!(ctl.get_framerate(), Some(cached.framerate()));
}

#[test]
fn stream_failure_restores_previous_configuration() {
    let (mut ctl, mut dev) = streaming_720p();
    dev.fail_stream = true;
    let r = ctl.set_resolution(Resolution::new(1920, 1080));
    assert_eq!(run(&mut ctl, &mut dev, r), Err(NokhwaError::CouldntOpenStream("no buffers".to_string())));
    assert_eq!((dev.width, dev.height, &dev.fourcc, dev.fps), (1280, 720, b"MJPG", 30));
    assert_eq!(ctl.get_camera_format(), Some(fmt(1280, 720, FrameFormat::MJPEG, 30)));
    assert!(!ctl.is_stream_open());
    assert!(!ctl.is_faulted());
    assert!(ctl.is_idle());
}

#[test]
fn cached_format_is_last_successful_argument() {
    let mut ctl = Ctl::new();
    let mut dev = SimDevice::at(0, 0, b"YUYV", 0);
    let formats = [
        fmt(640, 480, FrameFormat::MJPEG, 30),
        fmt(320, 240, FrameFormat::YUYV, 15),
        fmt(1280, 720, FrameFormat::MJPEG, 60),
    ];
    for f in formats {
        let r = ctl.set_camera_format(f);
        assert_eq!(run(&mut ctl, &mut dev, r), Ok(()));
        assert_eq!(ctl.get_camera_format(), Some(f));
    }
    dev.fail_set_format = true;
    let r = ctl.set_camera_format(fmt(1, 1, FrameFormat::YUYV, 1));
    assert!(run(&mut ctl, &mut dev, r).is_err());
    assert_eq!(ctl.get_camera_format(), Some(formats[2]));
}

#[test]
fn init_default_without_overwrite_is_noop() {
    let mut ctl = Ctl::new();
    let mut dev = SimDevice::at(0, 0, b"YUYV", 0);
    let custom = fmt(800, 600, FrameFormat::YUYV, 20);
    let r = ctl.set_camera_format(custom);
    assert_eq!(run(&mut ctl, &mut dev, r), Ok(()));
    let calls = dev.device_calls;
    let r = ctl.init_camera_format_default(false);
    assert!(matches!(r, DeviceRequest::Finished(Ok(()))));
    assert_eq!(ctl.get_camera_format(), Some(custom));
    assert_eq!(dev.device_calls, calls);
}

#[test]
fn init_default_with_overwrite_applies_default() {
    let mut ctl = Ctl::new();
    let mut dev = SimDevice::at(0, 0, b"YUYV", 0);
    let r = ctl.set_camera_format(fmt(800, 600, FrameFormat::YUYV, 20));
    assert_eq!(run(&mut ctl, &mut dev, r), Ok(()));
    let r = ctl.init_camera_format_default(true);
    assert_eq!(run(&mut ctl, &mut dev, r), Ok(()));
    assert_eq!(ctl.get_camera_format(), Some(CameraFormat::default_format()));
    assert_eq!((dev.width, dev.height, &dev.fourcc, dev.fps), (640, 480, b"MJPG", 15));
}

#[test]
fn deferred_setters_touch_no_device() {
    let mut ctl = Ctl::new();
    let r = ctl.set_framerate(25);
    assert!(matches!(r, DeviceRequest::Finished(Ok(()))));
    assert_eq!(ctl.get_camera_format(), Some(fmt(0, 0, FrameFormat::MJPEG, 25)));

    let mut ctl = Ctl::new();
    let r = ctl.set_frameformat(FrameFormat::YUYV);
    assert!(matches!(r, DeviceRequest::Finished(Ok(()))));
    assert_eq!(ctl.get_camera_format(), Some(fmt(0, 0, FrameFormat::YUYV, 0)));

    let mut ctl = Ctl::new();
    let r = ctl.set_resolution(Resolution::new(1024, 768));
    assert!(matches!(r, DeviceRequest::Finished(Ok(()))));
    assert_eq!(ctl.get_camera_format(), Some(fmt(1024, 768, FrameFormat::MJPEG, 0)));
    assert!(!ctl.is_stream_open());
}

#[test]
fn pending_format_is_applied_when_stream_starts() {
    let mut ctl = Ctl::new();
    let mut dev = SimDevice::at(0, 0, b"YUYV", 0);
    let r = ctl.set_resolution(Resolution::new(1024, 768));
    assert_eq!(run(&mut ctl, &mut dev, r), Ok(()));
    assert_eq!(dev.device_calls, 0);
    let r = ctl.open_stream();
    assert_eq!(run(&mut ctl, &mut dev, r), Ok(()));
    assert_eq!((dev.width, dev.height, &dev.fourcc, dev.fps), (1024, 768, b"MJPG", 0));
    assert_eq!(dev.stream_bound_to, Some(((1024, 768, *b"MJPG"), 0)));
    assert!(ctl.is_stream_open());
}

#[test]
fn format_change_while_streaming_recreates_stream() {
    let (mut ctl, mut dev) = streaming_720p();
    assert_eq!(dev.streams_opened, 1);
    let r = ctl.set_frameformat(FrameFormat::YUYV);
    assert_eq!(run(&mut ctl, &mut dev, r), Ok(()));
    assert_eq!(dev.streams_opened, 2);
    assert_eq!(dev.stream_bound_to, Some(((1280, 720, *b"YUYV"), 30)));
    assert_eq!(ctl.stream_format, Some(fmt(1280, 720, FrameFormat::YUYV, 30)));
    assert!(ctl.is_stream_open());
}

#[test]
fn set_framerate_while_configured() {
    let mut ctl = Ctl::new();
    let mut dev = SimDevice::at(0, 0, b"YUYV", 0);
    let r = ctl.set_camera_format(fmt(640, 480, FrameFormat::YUYV, 30));
    assert_eq!(run(&mut ctl, &mut dev, r), Ok(()));
    let r = ctl.set_framerate(60);
    assert_eq!(run(&mut ctl, &mut dev, r), Ok(()));
    assert_eq!(dev.fps, 60);
    assert_eq!(ctl.get_camera_format(), Some(fmt(640, 480, FrameFormat::YUYV, 60)));
    assert_eq!(dev.streams_opened, 0);
}

#[test]
fn format_query_failure() {
    let mut ctl = Ctl::new();
    let mut dev = SimDevice::at(0, 0, b"YUYV", 0);
    dev.fail_read_format = true;
    let r = ctl.set_camera_format(fmt(640, 480, FrameFormat::MJPEG, 30));
    assert_eq!(
        run(&mut ctl, &mut dev, r),
        Err(NokhwaError::CouldntQueryDevice {
            property: DeviceProperty::ResolutionFrameFormat,
            error: "no format".to_string()
        })
    );
    assert_eq!(ctl.get_camera_format(), None);
    assert_eq!((dev.width, dev.fps), (0, 0));
}

#[test]
fn framerate_query_failure() {
    let mut ctl = Ctl::new();
    let mut dev = SimDevice::at(0, 0, b"YUYV", 0);
    dev.fail_read_fps = true;
    let r = ctl.set_camera_format(fmt(640, 480, FrameFormat::MJPEG, 30));
    assert_eq!(
        run(&mut ctl, &mut dev, r),
        Err(NokhwaError::CouldntQueryDevice {
            property: DeviceProperty::Framerate,
            error: "no params".to_string()
        })
    );
    assert_eq!(dev.width, 0);
}

#[test]
fn format_write_failure() {
    let mut ctl = Ctl::new();
    let mut dev = SimDevice::at(0, 0, b"YUYV", 0);
    dev.fail_set_format = true;
    let r = ctl.set_camera_format(fmt(640, 480, FrameFormat::MJPEG, 30));
    assert_eq!(
        run(&mut ctl, &mut dev, r),
        Err(NokhwaError::CouldntSetProperty {
            property: DeviceProperty::ResolutionFrameFormat,
            value: "640x480".to_string(),
            error: "refused".to_string()
        })
    );
    assert_eq!(dev.fps, 0);
}

#[test]
fn framerate_write_failure_is_not_undone() {
    let mut ctl = Ctl::new();
    let mut dev = SimDevice::at(0, 0, b"YUYV", 0);
    dev.fail_set_fps = true;
    let r = ctl.set_camera_format(fmt(640, 480, FrameFormat::MJPEG, 30));
    assert_eq!(
        run(&mut ctl, &mut dev, r),
        Err(NokhwaError::CouldntSetProperty {
            property: DeviceProperty::Framerate,
            value: "30 fps".to_string(),
            error: "refused".to_string()
        })
    );
    assert_eq!((dev.width, dev.height, &dev.fourcc, dev.fps), (640, 480, b"MJPG", 0));
    assert_eq!(ctl.get_camera_format(), None);
}

#[test]
fn failed_format_undo_faults() {
    let (mut ctl, mut dev) = streaming_720p();
    dev.fail_stream = true;
    dev.fail_restore_format = true;
    let r = ctl.set_resolution(Resolution::new(1920, 1080));
    assert_eq!(
        run(&mut ctl, &mut dev, r),
        Err(NokhwaError::CouldntSetProperty {
            property: DeviceProperty::UndoResolutionFrameFormat,
            value: "1280x720".to_string(),
            error: "refused".to_string()
        })
    );
    assert!(ctl.is_faulted());
    assert!(!ctl.is_stream_open());
}

#[test]
fn failed_framerate_undo_faults() {
    let (mut ctl, mut dev) = streaming_720p();
    dev.fail_stream = true;
    dev.fail_restore_fps = true;
    let r = ctl.set_framerate(60);
    assert_eq!(
        run(&mut ctl, &mut dev, r),
        Err(NokhwaError::CouldntSetProperty {
            property: DeviceProperty::UndoFramerate,
            value: "30 fps".to_string(),
            error: "refused".to_string()
        })
    );
    assert!(ctl.is_faulted());
}

#[test]
fn plain_stream_open_failure() {
    let mut ctl = Ctl::new();
    let mut dev = SimDevice::at(640, 480, b"YUYV", 30);
    dev.fail_stream = true;
    let r = ctl.open_stream();
    assert_eq!(run(&mut ctl, &mut dev, r), Err(NokhwaError::CouldntOpenStream("no buffers".to_string())));
    assert!(!ctl.is_stream_open());
    dev.fail_stream = false;
    let r = ctl.open_stream();
    assert_eq!(run(&mut ctl, &mut dev, r), Ok(()));
    assert!(ctl.is_stream_open());
    ctl.stop_stream();
    assert!(!ctl.is_stream_open());
}

#[test]
fn default_trait_matches_default_format() {
    assert_eq!(CameraFormat::default(), fmt(640, 480, FrameFormat::MJPEG, 15));
}
