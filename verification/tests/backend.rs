use nokhwa::opencv_backend::{get_api_pref_int, FormatUpdate, FrameGrab, OpenCvCaptureDevice, OpenRequest};
use nokhwa::{CameraFormat, CameraIndexType, CaptureAPIBackend, FrameFormat, NokhwaError, Resolution};

fn device(location: CameraIndexType) -> OpenCvCaptureDevice {
    match OpenCvCaptureDevice::new(location, None, None, "linux", Ok(())) {
        Ok(d) => d,
        Err(e) => panic!("device creation failed: {}", e.message()),
    }
}

fn good_grab(pixels: Vec<[u8; 3]>) -> FrameGrab {
    FrameGrab {
        read: Ok(true),
        empty: Ok(false),
        width: Ok(pixels.len() as i32),
        continuous: Ok(true),
        pixels: Ok(pixels),
    }
}

fn capture_message(r: Result<Vec<u8>, NokhwaError>) -> String {
    match r {
        Err(NokhwaError::CouldntCaptureFrame(m)) => m,
        Err(e) => panic!("unexpected error {}", e.message()),
        Ok(_) => panic!("unexpected frame"),
    }
}

#[test]
fn api_preference_follows_the_operating_system() {
    assert_eq!(get_api_pref_int("linux"), 200);
    assert_eq!(get_api_pref_int("windows"), 1400);
    assert_eq!(get_api_pref_int("mac"), 1200);
    assert_eq!(get_api_pref_int("macos"), 1200);
    assert_eq!(get_api_pref_int("freebsd"), 0);
    assert_eq!(get_api_pref_int(""), 0);
}

#[test]
fn plan_for_index_camera_uses_index_and_api() {
    let loc = CameraIndexType::Index(3);
    let plan = OpenCvCaptureDevice::plan_open(&loc, None, "windows").unwrap();
    assert_eq!(plan.api_preference, 1400);
    match plan.request {
        OpenRequest::Device { index, api_preference } => {
            assert_eq!(index, 3);
            assert_eq!(api_preference, 1400);
        }
        other => panic!("unexpected request {:?}", other),
    }
}

#[test]
fn plan_for_ip_camera_opens_a_stream_with_any_api() {
    let loc = CameraIndexType::IPCamera("rtsp://10.0.0.2:554/".to_string());
    let plan = OpenCvCaptureDevice::plan_open(&loc, Some(1200), "linux").unwrap();
    assert_eq!(plan.api_preference, 1200);
    match plan.request {
        OpenRequest::Stream { address, api_preference } => {
            assert_eq!(address, "rtsp://10.0.0.2:554/");
            assert_eq!(api_preference, 0);
        }
        other => panic!("unexpected request {:?}", other),
    }
}

#[test]
fn api_preference_out_of_range_is_a_general_error() {
    let loc = CameraIndexType::Index(0);
    match OpenCvCaptureDevice::plan_open(&loc, Some(u32::MAX), "linux") {
        Err(NokhwaError::GeneralError(m)) => assert_eq!(
            m,
            "Failed to convert 4294967295, out of range integral type conversion attempted"
        ),
        other => panic!("unexpected {:?}", other),
    }
}

#[test]
fn index_out_of_i32_range_is_a_general_error() {
    let r = OpenCvCaptureDevice::new(CameraIndexType::Index(3_000_000_000), None, None, "linux", Ok(()));
    match r {
        Err(NokhwaError::GeneralError(m)) => assert_eq!(
            m,
            "Failed to convert 3000000000, out of range integral type conversion attempted"
        ),
        Err(e) => panic!("unexpected {}", e.message()),
        Ok(_) => panic!("unexpected device"),
    }
}

#[test]
fn new_index_camera_describes_itself() {
    let d = device(CameraIndexType::Index(2));
    let info = d.camera_info();
    assert_eq!(info.human_name(), "OpenCV Capture Device 2");
    assert_eq!(info.description(), "2");
    assert_eq!(info.misc(), "");
    assert_eq!(info.index(), 2);
    assert_eq!(d.opencv_preference(), 200);
    assert!(d.is_index_camera());
    assert!(!d.is_ip_camera());
    assert_eq!(d.camera_location(), CameraIndexType::Index(2));
}

#[test]
fn new_without_format_gets_640x480_mjpeg_15fps() {
    let d = device(CameraIndexType::Index(0));
    let f = d.camera_format();
    assert_eq!(f.resolution(), Resolution::new(640, 480));
    assert_eq!(f.format(), FrameFormat::MJPEG);
    assert_eq!(f.frame_rate(), 15);
    assert_eq!(d.frame_format(), FrameFormat::MJPEG);
}

#[test]
fn new_keeps_given_format_and_api() {
    let fmt = CameraFormat::new(Resolution::new(1280, 720), FrameFormat::YUYV, 60);
    let d = OpenCvCaptureDevice::new(CameraIndexType::Index(1), Some(fmt), Some(1200), "linux", Ok(()))
        .unwrap();
    assert_eq!(d.camera_format(), fmt);
    assert_eq!(d.opencv_preference(), 1200);
}

#[test]
fn ip_camera_index_is_u32_max() {
    let d = OpenCvCaptureDevice::new_ip_camera("http://cam.local/".to_string(), "linux", Ok(())).unwrap();
    let info = d.camera_info();
    assert_eq!(info.index(), 4294967295usize);
    assert_eq!(info.human_name(), "OpenCV Capture Device http://cam.local/");
    assert_eq!(info.description(), "http://cam.local/");
    assert!(d.is_ip_camera());
    assert!(!d.is_index_camera());
    assert_eq!(d.opencv_preference(), 200);
    assert_eq!(d.camera_format().frame_rate(), 15);
}

#[test]
fn failed_open_is_couldnt_open_device() {
    match OpenCvCaptureDevice::new(CameraIndexType::Index(5), None, None, "linux", Err("no such device".to_string())) {
        Err(NokhwaError::CouldntOpenDevice(m)) => assert_eq!(m, "no such device"),
        Err(e) => panic!("unexpected {}", e.message()),
        Ok(_) => panic!("unexpected device"),
    }
}

#[test]
fn new_index_camera_and_autopref() {
    let d = OpenCvCaptureDevice::new_index_camera(4, None, Some(7), "linux", Ok(())).unwrap();
    assert_eq!(d.opencv_preference(), 7);
    assert_eq!(d.camera_info().index(), 4);
    let a = OpenCvCaptureDevice::new_autopref(4, None, "windows", Ok(())).unwrap();
    assert_eq!(a.opencv_preference(), 1400);
    assert_eq!(a.camera_location(), CameraIndexType::Index(4));
}

#[test]
fn index_beyond_u32_is_a_general_error() {
    if usize::BITS > 32 {
        let big: usize = (u32::MAX as usize) + 1;
        match OpenCvCaptureDevice::index_location(big) {
            Err(NokhwaError::GeneralError(m)) => assert_eq!(
                m,
                "Failed to convert 4294967296, out of range integral type conversion attempted"
            ),
            other => panic!("unexpected {:?}", other),
        }
    }
    assert_eq!(OpenCvCaptureDevice::index_location(9).unwrap(), CameraIndexType::Index(9));
}

#[test]
fn raw_frame_is_rgb_of_bgr_pixels() {
    let d = device(CameraIndexType::Index(0));
    let grab = good_grab(vec![[1, 2, 3], [10, 20, 30]]);
    let raw = d.raw_frame_vec(Ok(true), Some(grab)).unwrap();
    assert_eq!(raw, vec![3, 2, 1, 30, 20, 10]);
    let again = d.frame_raw(Ok(true), Some(good_grab(vec![[7, 8, 9]]))).unwrap();
    assert_eq!(again, vec![9, 8, 7]);
}

#[test]
fn raw_frame_errors_in_order() {
    let d = device(CameraIndexType::Index(0));
    assert_eq!(capture_message(d.raw_frame_vec(Ok(false), None)), "Stream is not open!");
    assert_eq!(capture_message(d.raw_frame_vec(Err("x".to_string()), None)), "Stream is not open!");

    let mut g = good_grab(vec![[0, 0, 0]]);
    g.read = Err("io".to_string());
    assert_eq!(capture_message(d.raw_frame_vec(Ok(true), Some(g))), "Failed to read frame from videocapture: io");

    let mut g = good_grab(vec![[0, 0, 0]]);
    g.read = Ok(false);
    assert_eq!(
        capture_message(d.raw_frame_vec(Ok(true), Some(g))),
        "Failed to read frame from videocapture: OpenCV return false, camera disconnected?"
    );

    let mut g = good_grab(vec![[0, 0, 0]]);
    g.empty = Err("e".to_string());
    assert_eq!(capture_message(d.raw_frame_vec(Ok(true), Some(g))), "Failed to check for empty OpenCV frame: e");

    let mut g = good_grab(vec![[0, 0, 0]]);
    g.width = Err("s".to_string());
    assert_eq!(
        capture_message(d.raw_frame_vec(Ok(true), Some(g))),
        "Failed to read frame from videocapture: failed to read size: s"
    );

    let mut g = good_grab(vec![[0, 0, 0]]);
    g.width = Ok(0);
    assert_eq!(capture_message(d.raw_frame_vec(Ok(true), Some(g))), "Frame width is less than zero!");

    let mut g = good_grab(vec![[0, 0, 0]]);
    g.empty = Ok(true);
    assert_eq!(capture_message(d.raw_frame_vec(Ok(true), Some(g))), "Frame width is less than zero!");

    let mut g = good_grab(vec![[0, 0, 0]]);
    g.continuous = Err("c".to_string());
    assert_eq!(
        capture_message(d.raw_frame_vec(Ok(true), Some(g))),
        "Failed to read frame from videocapture: failed to read continuous: c"
    );

    let mut g = good_grab(vec![[0, 0, 0]]);
    g.continuous = Ok(false);
    assert_eq!(capture_message(d.raw_frame_vec(Ok(true), Some(g))), "Failed to read frame from videocapture: not cont");

    let mut g = good_grab(vec![[0, 0, 0]]);
    g.pixels = Err("type".to_string());
    assert_eq!(capture_message(d.raw_frame_vec(Ok(true), Some(g))), "Failed to convert frame into raw Vec3b: type");
}

#[test]
fn resolution_and_framerate_reads() {
    let d = device(CameraIndexType::Index(0));
    assert_eq!(d.raw_resolution(Ok(800), Ok(600)).unwrap(), Resolution::new(800, 600));
    match d.raw_resolution(Err("w".to_string()), Err("h".to_string())) {
        Err(NokhwaError::CouldntQueryDevice { property, error }) => {
            assert_eq!(property, "Width");
            assert_eq!(error, "w");
        }
        other => panic!("unexpected {:?}", other),
    }
    match d.raw_resolution(Ok(1), Err("h".to_string())) {
        Err(NokhwaError::CouldntQueryDevice { property, error }) => {
            assert_eq!(property, "Height");
            assert_eq!(error, "h");
        }
        other => panic!("unexpected {:?}", other),
    }
    assert_eq!(d.raw_framerate(Ok(25)).unwrap(), 25);
    match d.raw_framerate(Err("f".to_string())) {
        Err(NokhwaError::CouldntQueryDevice { property, error }) => {
            assert_eq!(property, "Framerate");
            assert_eq!(error, "f");
        }
        other => panic!("unexpected {:?}", other),
    }
}

#[test]
fn resolution_and_frame_rate_fall_back() {
    let d = device(CameraIndexType::Index(0));
    assert_eq!(d.resolution(Ok(320), Ok(240)), Resolution::new(320, 240));
    assert_eq!(d.resolution(Ok(320), Err("h".to_string())), Resolution::new(640, 480));
    assert_eq!(d.frame_rate(Ok(60)), 60);
    assert_eq!(d.frame_rate(Err("f".to_string())), 30);
}

#[test]
fn set_camera_format_outcomes() {
    let mut d = device(CameraIndexType::Index(0));
    let fmt = CameraFormat::new(Resolution::new(1920, 1080), FrameFormat::YUYV, 30);
    match d.set_camera_format(fmt, Err("q".to_string())) {
        Err(NokhwaError::CouldntQueryDevice { property, error }) => {
            assert_eq!(property, "Is Stream Open");
            assert_eq!(error, "q");
        }
        other => panic!("unexpected {:?}", other),
    }
    assert_eq!(d.camera_format().resolution(), Resolution::new(640, 480));
    assert_eq!(d.set_camera_format(fmt, Ok(false)).unwrap(), FormatUpdate::Applied);
    assert_eq!(d.camera_format(), fmt);
    let fmt2 = CameraFormat::new(Resolution::new(320, 240), FrameFormat::MJPEG, 5);
    assert_eq!(d.set_camera_format(fmt2, Ok(true)).unwrap(), FormatUpdate::RestartStream);
    assert_eq!(d.camera_format(), fmt2);
    assert_eq!(d.camera_info().human_name(), "OpenCV Capture Device 0");
}

#[test]
fn setters_change_one_part_of_the_format() {
    let mut d = device(CameraIndexType::Index(0));
    assert_eq!(d.set_resolution(Resolution::new(1024, 768), Ok(false)).unwrap(), FormatUpdate::Applied);
    assert_eq!(d.camera_format(), CameraFormat::new(Resolution::new(1024, 768), FrameFormat::MJPEG, 15));
    assert_eq!(d.set_frame_rate(24, Ok(true)).unwrap(), FormatUpdate::RestartStream);
    assert_eq!(d.camera_format(), CameraFormat::new(Resolution::new(1024, 768), FrameFormat::MJPEG, 24));
    assert_eq!(d.set_frame_format(FrameFormat::YUYV, Ok(false)).unwrap(), FormatUpdate::Applied);
    assert_eq!(d.frame_format(), FrameFormat::YUYV);
    assert!(d.set_frame_rate(99, Err("x".to_string())).is_err());
    assert_eq!(d.camera_format().frame_rate(), 24);
}

#[test]
fn restart_failure_wraps_the_message() {
    let d = device(CameraIndexType::Index(0));
    assert!(d.restart_stream(Ok(()), Some(Ok(()))).is_ok());
    let inner = d.open_stream(Err("busy".to_string()), Ok(false)).unwrap_err();
    match d.restart_stream(Ok(()), Some(Err(inner))) {
        Err(NokhwaError::CouldntOpenDevice(m)) => {
            assert_eq!(m, "Could not open device: Failed to open device: busy")
        }
        other => panic!("unexpected {:?}", other),
    }
}

#[test]
fn failed_stop_is_not_followed_by_a_reopen() {
    let d = device(CameraIndexType::Index(0));
    let stopped = d.stop_stream(Err("held".to_string()));
    assert!(!d.should_reopen(&stopped));
    match d.restart_stream(stopped, None) {
        Err(NokhwaError::CouldntStopStream(m)) => assert_eq!(m, "held"),
        other => panic!("unexpected {:?}", other),
    }
    assert!(d.should_reopen(&Ok(())));
}

#[test]
fn open_failure_error() {
    match OpenCvCaptureDevice::open_failure("gone".to_string()) {
        NokhwaError::CouldntOpenDevice(m) => assert_eq!(m, "gone"),
        other => panic!("unexpected {:?}", other),
    }
}

#[test]
fn compatibility_queries_are_unsupported() {
    let d = device(CameraIndexType::Index(0));
    assert!(matches!(
        d.compatible_list_by_resolution(FrameFormat::MJPEG),
        Err(NokhwaError::UnsupportedOperation(CaptureAPIBackend::OpenCv))
    ));
    assert!(matches!(
        d.compatible_fourcc(),
        Err(NokhwaError::UnsupportedOperation(CaptureAPIBackend::OpenCv))
    ));
}

#[test]
fn stream_request_uses_os_preference() {
    let d = OpenCvCaptureDevice::new(CameraIndexType::Index(6), None, Some(5), "linux", Ok(())).unwrap();
    match d.stream_request("windows") {
        OpenRequest::Device { index, api_preference } => {
            assert_eq!(index, 6);
            assert_eq!(api_preference, 1400);
        }
        other => panic!("unexpected {:?}", other),
    }
    let ip = OpenCvCaptureDevice::new_ip_camera("rtsp://a/".to_string(), "linux", Ok(())).unwrap();
    match ip.stream_request("linux") {
        OpenRequest::Stream { address, api_preference } => {
            assert_eq!(address, "rtsp://a/");
            assert_eq!(api_preference, 200);
        }
        other => panic!("unexpected {:?}", other),
    }
}

#[test]
fn open_stream_outcomes() {
    let d = device(CameraIndexType::Index(0));
    assert!(d.open_stream(Ok(()), Ok(true)).is_ok());
    match d.open_stream(Ok(()), Ok(false)) {
        Err(NokhwaError::CouldntOpenStream(m)) => {
            assert_eq!(m, "Stream is not opened after stream open attempt opencv")
        }
        other => panic!("unexpected {:?}", other),
    }
    match d.open_stream(Ok(()), Err("q".to_string())) {
        Err(NokhwaError::CouldntQueryDevice { property, error }) => {
            assert_eq!(property, "Is Stream Open After Open Stream");
            assert_eq!(error, "q");
        }
        other => panic!("unexpected {:?}", other),
    }
    match d.open_stream(Err("busy".to_string()), Ok(true)) {
        Err(NokhwaError::CouldntOpenDevice(m)) => assert_eq!(m, "Failed to open device: busy"),
        other => panic!("unexpected {:?}", other),
    }
}

#[test]
fn stream_state_and_stop() {
    let d = device(CameraIndexType::Index(0));
    assert!(d.is_stream_open(Ok(true)));
    assert!(!d.is_stream_open(Ok(false)));
    assert!(!d.is_stream_open(Err("x".to_string())));
    assert!(d.stop_stream(Ok(())).is_ok());
    match d.stop_stream(Err("r".to_string())) {
        Err(NokhwaError::CouldntStopStream(m)) => assert_eq!(m, "r"),
        other => panic!("unexpected {:?}", other),
    }
}

#[test]
fn frame_pads_to_the_format_resolution() {
    let fmt = CameraFormat::new(Resolution::new(2, 2), FrameFormat::MJPEG, 15);
    let d = OpenCvCaptureDevice::new(CameraIndexType::Index(0), Some(fmt), None, "linux", Ok(())).unwrap();
    let image = d.frame(Ok(true), Some(good_grab(vec![[1, 2, 3], [4, 5, 6]]))).unwrap();
    assert_eq!(image.buffer.dimensions(), (2, 2));
    assert_eq!(image.buffer.as_raw().clone(), vec![3, 2, 1, 6, 5, 4, 0, 0, 0, 0, 0, 0]);
}

#[test]
fn frame_cuts_to_the_format_resolution() {
    let fmt = CameraFormat::new(Resolution::new(1, 1), FrameFormat::MJPEG, 15);
    let d = OpenCvCaptureDevice::new(CameraIndexType::Index(0), Some(fmt), None, "linux", Ok(())).unwrap();
    let image = d.frame(Ok(true), Some(good_grab(vec![[1, 2, 3], [4, 5, 6]]))).unwrap();
    assert_eq!(image.buffer.width(), 1);
    assert_eq!(image.buffer.height(), 1);
    assert_eq!(image.buffer.as_raw().clone(), vec![3, 2, 1]);
}

#[test]
fn frame_passes_capture_errors_on() {
    let d = device(CameraIndexType::Index(0));
    match d.frame(Ok(false), None) {
        Err(NokhwaError::CouldntCaptureFrame(m)) => assert_eq!(m, "Stream is not open!"),
        Err(e) => panic!("unexpected {}", e.message()),
        Ok(_) => panic!("unexpected image"),
    }
}

#[test]
fn closed_stream_reports_before_the_frame_size_is_computed() {
    let fmt = CameraFormat::new(Resolution::new(65536, 65536), FrameFormat::MJPEG, 15);
    let d = OpenCvCaptureDevice::new(CameraIndexType::Index(0), Some(fmt), None, "linux", Ok(())).unwrap();
    assert!(!d.frame_fits());
    match d.frame(Ok(false), None) {
        Err(NokhwaError::CouldntCaptureFrame(m)) => assert_eq!(m, "Stream is not open!"),
        Err(e) => panic!("unexpected {}", e.message()),
        Ok(_) => panic!("unexpected image"),
    }
    assert_eq!(d.camera_format(), fmt);
}

#[test]
fn frame_size_limits() {
    let fits = |w: u32, h: u32| {
        let fmt = CameraFormat::new(Resolution::new(w, h), FrameFormat::MJPEG, 15);
        OpenCvCaptureDevice::new(CameraIndexType::Index(0), Some(fmt), None, "linux", Ok(()))
            .unwrap()
            .frame_fits()
    };
    assert!(fits(640, 480));
    assert!(fits(1431655765, 1));
    assert!(!fits(1431655766, 1));
    assert!(fits(0, u32::MAX));
    assert!(!fits(u32::MAX, u32::MAX));
}

#[test]
fn frame_from_raw_cuts_and_pads() {
    let fmt = CameraFormat::new(Resolution::new(1, 2), FrameFormat::MJPEG, 15);
    let d = OpenCvCaptureDevice::new(CameraIndexType::Index(0), Some(fmt), None, "linux", Ok(())).unwrap();
    let image = d.frame_from_raw(vec![1, 2, 3, 4]).unwrap();
    assert_eq!(image.buffer.dimensions(), (1, 2));
    assert_eq!(image.buffer.as_raw().clone(), vec![1, 2, 3, 4, 0, 0]);
    let image = d.frame_from_raw(vec![9; 10]).unwrap();
    assert_eq!(image.buffer.as_raw().clone(), vec![9; 6]);
}
