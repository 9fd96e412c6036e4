//! The OpenCV capture device: its state and the decisions taken around each
//! call into OpenCV. The calls themselves are made by the caller, who hands
//! their outcomes (OpenCV errors as their message text) to these functions.

use std::collections::HashMap;
use vstd::prelude::*;
use vstd::string::*;

use crate::error::{message_text, result_view, ErrorView, NokhwaError};
use crate::imaging::{rgb_image_dimensions, rgb_image_from_vec, rgb_image_samples, RgbImage};
use crate::text::{concat_str, decimal_text, push_decimal, str_equals};
use crate::types::{
    default_format, location_text, CameraFormat, CameraIndexType, CameraInfo, CameraInfoView,
    CaptureAPIBackend, FrameFormat, LocationView, Resolution,
};

verus! {

/// OpenCV's `CAP_ANY`: let OpenCV pick the capture API.
pub const CAP_ANY: u32 = 0;

/// OpenCV's `CAP_V4L2`: Video4Linux.
pub const CAP_V4L2: u32 = 200;

/// OpenCV's `CAP_AVFOUNDATION`: AVFoundation.
pub const CAP_AVFOUNDATION: u32 = 1200;

/// OpenCV's `CAP_MSMF`: Microsoft Media Foundation.
pub const CAP_MSMF: u32 = 1400;

/// The native capture API of an operating system (named as `std::env::consts::OS`
/// names it): linux => V4L2, windows => MSMF, mac => AVFoundation, otherwise any.
pub open spec fn os_api_preference(os: Seq<char>) -> u32 {
    if os == "linux"@ {
        CAP_V4L2
    } else if os == "windows"@ {
        CAP_MSMF
    } else if os == "mac"@ || os == "macos"@ {
        CAP_AVFOUNDATION
    } else {
        CAP_ANY
    }
}

/// The OpenCV API preference for the operating system `os`.
pub fn get_api_pref_int(os: &str) -> (r: u32)
    ensures
        r == os_api_preference(os@),
{
    if str_equals(os, "linux") {
        CAP_V4L2
    } else if str_equals(os, "windows") {
        CAP_MSMF
    } else if str_equals(os, "mac") || str_equals(os, "macos") {
        CAP_AVFOUNDATION
    } else {
        CAP_ANY
    }
}

/// The error of a failed integer conversion of `v`.
pub open spec fn conversion_error(v: nat) -> ErrorView {
    ErrorView::GeneralError(
        "Failed to convert "@ + decimal_text(v) + ", out of range integral type conversion attempted"@,
    )
}

fn conversion_failure(v: u64) -> (e: NokhwaError)
    ensures
        e@ == conversion_error(v as nat),
{
    let mut m = String::from_str("Failed to convert ");
    push_decimal(&mut m, v);
    m.append(", out of range integral type conversion attempted");
    NokhwaError::GeneralError(m)
}

fn u32_to_i32(v: u32) -> (r: Result<i32, NokhwaError>)
    ensures
        match r {
            Ok(x) => v <= i32::MAX && x == v,
            Err(e) => v > i32::MAX && e@ == conversion_error(v as nat),
        },
{
    if v <= 2147483647u32 {
        Ok(v as i32)
    } else {
        Err(conversion_failure(v as u64))
    }
}

/// The capture API asked for: the given one, else the operating system's.
pub open spec fn requested_api(api_pref: Option<u32>, os: Seq<char>) -> u32 {
    match api_pref {
        Some(a) => a,
        None => os_api_preference(os),
    }
}

/// How OpenCV is asked to open a capture.
#[derive(Debug)]
pub enum OpenRequest {
    /// `VideoCapture::new(index, api_preference)`, or `open` with these arguments.
    Device { index: i32, api_preference: i32 },
    /// `VideoCapture::from_file(address, api_preference)`, or `open_file` with these arguments.
    Stream { address: String, api_preference: i32 },
}

/// An open request as plain values.
pub enum OpenRequestView {
    Device { index: i32, api_preference: i32 },
    Stream { address: Seq<char>, api_preference: i32 },
}

impl View for OpenRequest {
    type V = OpenRequestView;

    open spec fn view(&self) -> OpenRequestView {
        match self {
            OpenRequest::Device { index, api_preference } => OpenRequestView::Device {
                index: *index,
                api_preference: *api_preference,
            },
            OpenRequest::Stream { address, api_preference } => OpenRequestView::Stream {
                address: address@,
                api_preference: *api_preference,
            },
        }
    }
}

/// What creating a device asks of OpenCV, and the API preference the device keeps.
#[derive(Debug)]
pub struct OpenPlan {
    pub api_preference: i32,
    pub request: OpenRequest,
}

/// An open plan as plain values.
pub struct OpenPlanView {
    pub api_preference: i32,
    pub request: OpenRequestView,
}

impl View for OpenPlan {
    type V = OpenPlanView;

    open spec fn view(&self) -> OpenPlanView {
        OpenPlanView { api_preference: self.api_preference, request: self.request@ }
    }
}

/// The plan for opening `location`: the API preference must fit in `i32`, and so
/// must an index; an IP camera is opened as a stream with `CAP_ANY`.
pub open spec fn spec_plan_open(location: LocationView, api_pref: Option<u32>, os: Seq<char>) -> Result<
    OpenPlanView,
    ErrorView,
> {
    let api: u32 = requested_api(api_pref, os);
    if api > i32::MAX {
        Err(conversion_error(api as nat))
    } else {
        match location {
            LocationView::Index(idx) => if idx > i32::MAX {
                Err(conversion_error(idx as nat))
            } else {
                Ok(
                    OpenPlanView {
                        api_preference: api as i32,
                        request: OpenRequestView::Device {
                            index: idx as i32,
                            api_preference: api as i32,
                        },
                    },
                )
            },
            LocationView::IPCamera(address) => Ok(
                OpenPlanView {
                    api_preference: api as i32,
                    request: OpenRequestView::Stream {
                        address,
                        api_preference: CAP_ANY as i32,
                    },
                },
            ),
        }
    }
}

/// The information a device gives about the camera at `location`.
pub open spec fn info_for(location: LocationView) -> CameraInfoView {
    CameraInfoView {
        human_name: "OpenCV Capture Device "@ + location_text(location),
        description: location_text(location),
        misc: Seq::empty(),
        index: match location {
            LocationView::Index(i) => i as usize,
            LocationView::IPCamera(_) => u32::MAX as usize,
        },
    }
}

/// An OS index that OpenCV can be asked for (it fits in `i32`); any address.
pub open spec fn index_fits(location: LocationView) -> bool {
    match location {
        LocationView::Index(i) => i <= i32::MAX,
        LocationView::IPCamera(_) => true,
    }
}

/// A device as plain values.
pub struct DeviceView {
    pub camera_format: CameraFormat,
    pub camera_location: LocationView,
    pub camera_info: CameraInfoView,
    pub api_preference: i32,
}

/// Creating a device: the plan must succeed, then the open outcome decides.
pub open spec fn spec_new(
    location: LocationView,
    cfmt: Option<CameraFormat>,
    api_pref: Option<u32>,
    os: Seq<char>,
    opened: Result<(), String>,
) -> Result<DeviceView, ErrorView> {
    match spec_plan_open(location, api_pref, os) {
        Err(e) => Err(e),
        Ok(plan) => match opened {
            Err(why) => Err(ErrorView::CouldntOpenDevice(why@)),
            Ok(_) => Ok(
                DeviceView {
                    camera_format: match cfmt {
                        Some(f) => f,
                        None => default_format(),
                    },
                    camera_location: location,
                    camera_info: info_for(location),
                    api_preference: plan.api_preference,
                },
            ),
        },
    }
}

/// The location of the camera at OS index `index`, which must fit in `u32`.
pub open spec fn spec_index_location(index: usize) -> Result<LocationView, ErrorView> {
    if index > u32::MAX {
        Err(conversion_error(index as nat))
    } else {
        Ok(LocationView::Index(index as u32))
    }
}

/// Creating a device for the camera at OS index `index`.
pub open spec fn spec_new_index(
    index: usize,
    cfmt: Option<CameraFormat>,
    api_pref: Option<u32>,
    os: Seq<char>,
    opened: Result<(), String>,
) -> Result<DeviceView, ErrorView> {
    match spec_index_location(index) {
        Err(e) => Err(e),
        Ok(location) => spec_new(location, cfmt, api_pref, os, opened),
    }
}

/// Whether an `is_opened` outcome tells of an open stream (an error counts as closed).
pub open spec fn stream_open(is_opened: Result<bool, String>) -> bool {
    match is_opened {
        Ok(b) => b,
        Err(_) => false,
    }
}

/// The outcomes of the OpenCV calls made to grab one frame: `read` into a
/// fresh `Mat`, then the `Mat`'s `empty`, its width (from `size`),
/// `is_continuous`, and its pixels as `Vec3b` (BGR) from `data_typed`.
pub struct FrameGrab {
    pub read: Result<bool, String>,
    pub empty: Result<bool, String>,
    pub width: Result<i32, String>,
    pub continuous: Result<bool, String>,
    pub pixels: Result<Vec<[u8; 3]>, String>,
}

/// RGB24 bytes of BGR pixels: three bytes per pixel, in reverse channel order.
pub open spec fn rgb_bytes(pixels: Seq<[u8; 3]>) -> Seq<u8> {
    Seq::new(3 * pixels.len(), |i: int| pixels[i / 3]@[2 - i % 3])
}

/// A frame capture error with message `m`.
pub open spec fn capture_error<T>(m: Seq<char>) -> Result<T, ErrorView> {
    Err(ErrorView::CouldntCaptureFrame(m))
}

/// The frame bytes, or the error, that a grab gives.
pub open spec fn spec_grab(g: FrameGrab) -> Result<Seq<u8>, ErrorView> {
    match g.read {
        Err(why) => capture_error("Failed to read frame from videocapture: "@ + why@),
        Ok(false) => capture_error(
            "Failed to read frame from videocapture: OpenCV return false, camera disconnected?"@,
        ),
        Ok(true) => match g.empty {
            Err(why) => capture_error("Failed to check for empty OpenCV frame: "@ + why@),
            Ok(empty) => match g.width {
                Err(why) => capture_error(
                    "Failed to read frame from videocapture: failed to read size: "@ + why@,
                ),
                Ok(width) => if width > 0 && !empty {
                    match g.continuous {
                        Err(why) => capture_error(
                            "Failed to read frame from videocapture: failed to read continuous: "@
                                + why@,
                        ),
                        Ok(false) => capture_error(
                            "Failed to read frame from videocapture: not cont"@,
                        ),
                        Ok(true) => match g.pixels {
                            Err(why) => capture_error(
                                "Failed to convert frame into raw Vec3b: "@ + why@,
                            ),
                            Ok(pixels) => Ok(rgb_bytes(pixels@)),
                        },
                    }
                } else {
                    capture_error("Frame width is less than zero!"@)
                },
            },
        },
    }
}

/// Reading a raw frame: only from an open stream, then as the grab gives.
pub open spec fn spec_raw_frame(is_opened: Result<bool, String>, grab: Option<FrameGrab>) -> Result<
    Seq<u8>,
    ErrorView,
> {
    if !stream_open(is_opened) {
        capture_error("Stream is not open!"@)
    } else {
        spec_grab(grab.unwrap())
    }
}

/// A device query error.
pub open spec fn query_error(property: Seq<char>, why: Seq<char>) -> ErrorView {
    ErrorView::CouldntQueryDevice { property, error: why }
}

/// The resolution OpenCV reports, from the width and height property reads.
pub open spec fn spec_raw_resolution(width: Result<u32, String>, height: Result<u32, String>) -> Result<
    Resolution,
    ErrorView,
> {
    match width {
        Err(why) => Err(query_error("Width"@, why@)),
        Ok(x) => match height {
            Err(why) => Err(query_error("Height"@, why@)),
            Ok(y) => Ok(Resolution { width_x: x, height_y: y }),
        },
    }
}

/// The frame rate OpenCV reports, from the FPS property read.
pub open spec fn spec_raw_framerate(fps: Result<u32, String>) -> Result<u32, ErrorView> {
    match fps {
        Err(why) => Err(query_error("Framerate"@, why@)),
        Ok(f) => Ok(f),
    }
}

/// What a format change asks of the caller next.
#[derive(Clone, Copy, Debug, PartialEq, Eq, Structural)]
pub enum FormatUpdate {
    /// Nothing more: the stream was not open.
    Applied,
    /// The stream was open: stop it, open it again where `should_reopen` says
    /// so, and hand both outcomes to `restart_stream`.
    RestartStream,
}

/// A format change from `before` to `after`, given the `is_opened` outcome: a
/// failed query changes nothing; else the format is replaced and a restart is
/// asked for exactly when the stream was open.
pub open spec fn format_change(
    before: DeviceView,
    after: DeviceView,
    new_fmt: CameraFormat,
    is_opened: Result<bool, String>,
    r: Result<FormatUpdate, NokhwaError>,
) -> bool {
    match is_opened {
        Err(why) => after == before && (r matches Err(e) && e@ == query_error(
            "Is Stream Open"@,
            why@,
        )),
        Ok(open) => after == (DeviceView { camera_format: new_fmt, ..before }) && r == Ok::<
            FormatUpdate,
            NokhwaError,
        >(if open { FormatUpdate::RestartStream } else { FormatUpdate::Applied }),
    }
}

/// How a device's stream is opened again: by index or address, with the
/// operating system's API preference (each cast to `i32` as it is).
pub open spec fn spec_stream_request(location: LocationView, os: Seq<char>) -> OpenRequestView {
    match location {
        LocationView::Index(idx) => OpenRequestView::Device {
            index: idx as i32,
            api_preference: os_api_preference(os) as i32,
        },
        LocationView::IPCamera(address) => OpenRequestView::Stream {
            address,
            api_preference: os_api_preference(os) as i32,
        },
    }
}

/// Opening the stream, from the open call's outcome and the `is_opened` query after it.
pub open spec fn spec_open_stream(opened: Result<(), String>, is_opened: Result<bool, String>) -> Result<
    (),
    ErrorView,
> {
    match opened {
        Err(why) => Err(ErrorView::CouldntOpenDevice("Failed to open device: "@ + why@)),
        Ok(_) => match is_opened {
            Ok(true) => Ok(()),
            Ok(false) => Err(
                ErrorView::CouldntOpenStream(
                    "Stream is not opened after stream open attempt opencv"@,
                ),
            ),
            Err(why) => Err(query_error("Is Stream Open After Open Stream"@, why@)),
        },
    }
}

/// The number of RGB bytes a frame of resolution `res` holds.
pub open spec fn frame_len(res: Resolution) -> int {
    res.width_x * res.height_y * 3
}

/// `data` cut to `len` bytes, or padded with zero bytes up to `len`.
pub open spec fn resized(data: Seq<u8>, len: nat) -> Seq<u8> {
    if len <= data.len() {
        data.take(len as int)
    } else {
        data + Seq::new((len - data.len()) as nat, |i: int| 0u8)
    }
}

/// The state of a camera driven through OpenCV. The OpenCV `VideoCapture`
/// itself stays with the caller, who makes the calls this state asks for.
pub struct OpenCvCaptureDevice {
    camera_format: CameraFormat,
    camera_location: CameraIndexType,
    camera_info: CameraInfo,
    api_preference: i32,
}

impl View for OpenCvCaptureDevice {
    type V = DeviceView;

    closed spec fn view(&self) -> DeviceView {
        DeviceView {
            camera_format: self.camera_format,
            camera_location: self.camera_location@,
            camera_info: self.camera_info@,
            api_preference: self.api_preference,
        }
    }
}

/// Applies a format to the capture; OpenCV takes none of these settings, so
/// this always succeeds.
fn set_properties(camera_format: CameraFormat, camera_location: &CameraIndexType) -> (r: Result<
    (),
    NokhwaError,
>)
    ensures
        r is Ok,
{
    Ok(())
}

fn capture_failure(prefix: &str, why: String) -> (e: NokhwaError)
    ensures
        e@ == ErrorView::CouldntCaptureFrame(prefix@ + why@),
{
    NokhwaError::CouldntCaptureFrame(concat_str(prefix, why.as_str()))
}

fn capture_failure_text(m: &str) -> (e: NokhwaError)
    ensures
        e@ == ErrorView::CouldntCaptureFrame(m@),
{
    NokhwaError::CouldntCaptureFrame(String::from_str(m))
}

fn query_failure(property: &str, why: String) -> (e: NokhwaError)
    ensures
        e@ == query_error(property@, why@),
{
    NokhwaError::CouldntQueryDevice { property: String::from_str(property), error: why }
}

/// RGB24 bytes of BGR pixels.
pub fn bgr_to_rgb(pixels: &Vec<[u8; 3]>) -> (r: Vec<u8>)
    ensures
        r@ == rgb_bytes(pixels@),
{
    let n: usize = pixels.len();
    let mut out: Vec<u8> = Vec::new();
    let mut i: usize = 0;
    while i < n
        invariant
            n == pixels@.len(),
            i <= n,
            out@ =~= rgb_bytes(pixels@.take(i as int)),
        decreases n - i,
    {
        let p: [u8; 3] = pixels[i];
        out.push(p[2]);
        out.push(p[1]);
        out.push(p[0]);
        proof {
            let next = pixels@.take(i + 1);
            assert(next[i as int] == p);
            assert forall|j: int| 0 <= j < 3 * (i + 1) implies #[trigger] out@[j] == rgb_bytes(
                next,
            )[j] by {
                if j < 3 * i {
                    assert(j / 3 < i);
                    assert(next[j / 3] == pixels@.take(i as int)[j / 3]);
                } else {
                    assert(j / 3 == i);
                }
            }
            assert(out@ =~= rgb_bytes(next));
        }
        i += 1;
    }
    assert(pixels@.take(n as int) =~= pixels@);
    out
}

fn grabbed_frame(g: FrameGrab) -> (r: Result<Vec<u8>, NokhwaError>)
    ensures
        result_view(r) == spec_grab(g),
{
    let FrameGrab { read, empty, width, continuous, pixels } = g;
    match read {
        Err(why) => {
            return Err(capture_failure("Failed to read frame from videocapture: ", why));
        },
        Ok(a) => {
            if !a {
                return Err(
                    capture_failure_text(
                        "Failed to read frame from videocapture: OpenCV return false, camera disconnected?",
                    ),
                );
            }
        },
    }
    let frame_empty = match empty {
        Ok(e) => e,
        Err(why) => {
            return Err(capture_failure("Failed to check for empty OpenCV frame: ", why));
        },
    };
    match width {
        Ok(w) => {
            if w > 0 && !frame_empty {
                match continuous {
                    Ok(cont) => {
                        if cont {
                            match pixels {
                                Ok(px) => Ok(bgr_to_rgb(&px)),
                                Err(why) => Err(
                                    capture_failure("Failed to convert frame into raw Vec3b: ", why),
                                ),
                            }
                        } else {
                            Err(
                                capture_failure_text(
                                    "Failed to read frame from videocapture: not cont",
                                ),
                            )
                        }
                    },
                    Err(why) => Err(
                        capture_failure(
                            "Failed to read frame from videocapture: failed to read continuous: ",
                            why,
                        ),
                    ),
                }
            } else {
                Err(capture_failure_text("Frame width is less than zero!"))
            }
        },
        Err(why) => Err(
            capture_failure("Failed to read frame from videocapture: failed to read size: ", why),
        ),
    }
}

impl OpenCvCaptureDevice {
    #[verifier::type_invariant]
    spec fn well_formed(self) -> bool {
        &&& self.camera_info@ == info_for(self.camera_location@)
        &&& index_fits(self.camera_location@)
    }

    /// What opening `camera_location` asks of OpenCV.
    pub fn plan_open(camera_location: &CameraIndexType, api_pref: Option<u32>, os: &str) -> (r:
        Result<OpenPlan, NokhwaError>)
        ensures
            result_view(r) == spec_plan_open(camera_location@, api_pref, os@),
    {
        let requested: u32 = match api_pref {
            Some(a) => a,
            None => get_api_pref_int(os),
        };
        let api: i32 = match u32_to_i32(requested) {
            Ok(a) => a,
            Err(e) => return Err(e),
        };
        match camera_location {
            CameraIndexType::Index(idx) => match u32_to_i32(*idx) {
                Ok(index) => Ok(
                    OpenPlan {
                        api_preference: api,
                        request: OpenRequest::Device { index, api_preference: api },
                    },
                ),
                Err(e) => Err(e),
            },
            CameraIndexType::IPCamera(ip) => Ok(
                OpenPlan {
                    api_preference: api,
                    request: OpenRequest::Stream {
                        address: ip.clone(),
                        api_preference: CAP_ANY as i32,
                    },
                },
            ),
        }
    }

    /// The error of a capture that OpenCV failed to open, from OpenCV's message.
    pub fn open_failure(why: String) -> (e: NokhwaError)
        ensures
            e@ == ErrorView::CouldntOpenDevice(why@),
    {
        NokhwaError::CouldntOpenDevice(why)
    }

    /// Creates the device for `camera_location` once OpenCV was asked to open
    /// it as `plan_open` says and answered `opened` (its error as text).
    /// Without `cfmt` the device gets 640x480, MJPEG, 15 FPS.
    pub fn new(
        camera_location: CameraIndexType,
        cfmt: Option<CameraFormat>,
        api_pref: Option<u32>,
        os: &str,
        opened: Result<(), String>,
    ) -> (r: Result<Self, NokhwaError>)
        ensures
            result_view(r) == spec_new(camera_location@, cfmt, api_pref, os@, opened),
    {
        let plan = match Self::plan_open(&camera_location, api_pref, os) {
            Ok(p) => p,
            Err(e) => return Err(e),
        };
        let camera_format = match cfmt {
            Some(f) => f,
            None => CameraFormat::default(),
        };
        match opened {
            Ok(_) => {},
            Err(why) => return Err(Self::open_failure(why)),
        }
        match set_properties(camera_format, &camera_location) {
            Ok(_) => {},
            Err(e) => return Err(e),
        }
        let index: u32 = match &camera_location {
            CameraIndexType::Index(i) => *i,
            CameraIndexType::IPCamera(_) => u32::MAX,
        };
        let description = camera_location.to_string();
        let human_name = concat_str("OpenCV Capture Device ", description.as_str());
        let camera_info = CameraInfo::new(human_name, description, String::new(), index as usize);
        Ok(
            OpenCvCaptureDevice {
                camera_format,
                camera_location,
                camera_info,
                api_preference: plan.api_preference,
            },
        )
    }

    /// Creates the device for the IP camera at `ip`, with the default format
    /// and the operating system's API preference.
    pub fn new_ip_camera(ip: String, os: &str, opened: Result<(), String>) -> (r: Result<
        Self,
        NokhwaError,
    >)
        ensures
            result_view(r) == spec_new(LocationView::IPCamera(ip@), None, None, os@, opened),
    {
        let camera_location = CameraIndexType::IPCamera(ip);
        OpenCvCaptureDevice::new(camera_location, None, None, os, opened)
    }

    /// The location of the camera at OS index `index`.
    pub fn index_location(index: usize) -> (r: Result<CameraIndexType, NokhwaError>)
        ensures
            result_view(r) == spec_index_location(index),
    {
        if index <= 4294967295usize {
            Ok(CameraIndexType::Index(index as u32))
        } else {
            Err(conversion_failure(index as u64))
        }
    }

    /// Creates the device for the camera at OS index `index`.
    pub fn new_index_camera(
        index: usize,
        cfmt: Option<CameraFormat>,
        api_pref: Option<u32>,
        os: &str,
        opened: Result<(), String>,
    ) -> (r: Result<Self, NokhwaError>)
        ensures
            result_view(r) == spec_new_index(index, cfmt, api_pref, os@, opened),
    {
        let camera_location = match Self::index_location(index) {
            Ok(l) => l,
            Err(e) => return Err(e),
        };
        OpenCvCaptureDevice::new(camera_location, cfmt, api_pref, os, opened)
    }

    /// Creates the device for the camera at OS index `index`, with the
    /// operating system's API preference.
    pub fn new_autopref(index: usize, cfmt: Option<CameraFormat>, os: &str, opened: Result<
        (),
        String,
    >) -> (r: Result<Self, NokhwaError>)
        ensures
            result_view(r) == spec_new_index(index, cfmt, None, os@, opened),
    {
        let camera_location = match Self::index_location(index) {
            Ok(l) => l,
            Err(e) => return Err(e),
        };
        OpenCvCaptureDevice::new(camera_location, cfmt, None, os, opened)
    }

    /// Whether the camera is an IP camera.
    pub fn is_ip_camera(&self) -> (r: bool)
        ensures
            r == (self@.camera_location is IPCamera),
    {
        match self.camera_location {
            CameraIndexType::Index(_) => false,
            CameraIndexType::IPCamera(_) => true,
        }
    }

    /// Whether the camera is found by an OS index.
    pub fn is_index_camera(&self) -> (r: bool)
        ensures
            r == (self@.camera_location is Index),
    {
        match self.camera_location {
            CameraIndexType::Index(_) => true,
            CameraIndexType::IPCamera(_) => false,
        }
    }

    /// The camera location.
    pub fn camera_location(&self) -> (r: CameraIndexType)
        ensures
            r@ == self@.camera_location,
            index_fits(r@),
    {
        proof {
            use_type_invariant(self);
        }
        self.camera_location.duplicate()
    }

    /// The OpenCV API preference the device was created with.
    pub fn opencv_preference(&self) -> (r: i32)
        ensures
            r == self@.api_preference,
    {
        self.api_preference
    }

    /// The RGB24 frame as OpenCV delivers it, from the `is_opened` outcome and,
    /// where the stream is open, the outcomes of grabbing a frame.
    pub fn raw_frame_vec(&self, is_opened: Result<bool, String>, grab: Option<FrameGrab>) -> (r:
        Result<Vec<u8>, NokhwaError>)
        requires
            stream_open(is_opened) ==> grab is Some,
        ensures
            result_view(r) == spec_raw_frame(is_opened, grab),
    {
        if !self.is_stream_open(is_opened) {
            return Err(capture_failure_text("Stream is not open!"));
        }
        match grab {
            Some(g) => grabbed_frame(g),
            None => Err(capture_failure_text("Stream is not open!")),
        }
    }

    /// The resolution as OpenCV reports it, from the width and height reads.
    pub fn raw_resolution(&self, width: Result<u32, String>, height: Result<u32, String>) -> (r:
        Result<Resolution, NokhwaError>)
        ensures
            result_view(r) == spec_raw_resolution(width, height),
    {
        let w: u32 = match width {
            Ok(w) => w,
            Err(why) => return Err(query_failure("Width", why)),
        };
        let h: u32 = match height {
            Ok(h) => h,
            Err(why) => return Err(query_failure("Height", why)),
        };
        Ok(Resolution::new(w, h))
    }

    /// The frame rate as OpenCV reports it, from the FPS read.
    pub fn raw_framerate(&self, fps: Result<u32, String>) -> (r: Result<u32, NokhwaError>)
        ensures
            result_view(r) == spec_raw_framerate(fps),
    {
        match fps {
            Ok(f) => Ok(f),
            Err(why) => Err(query_failure("Framerate", why)),
        }
    }

    /// Information about the camera; it names the camera's location.
    pub fn camera_info(&self) -> (r: CameraInfo)
        ensures
            r@ == self@.camera_info,
            r@ == info_for(self@.camera_location),
    {
        proof {
            use_type_invariant(self);
        }
        self.camera_info.duplicate()
    }

    /// The capture format.
    pub fn camera_format(&self) -> (r: CameraFormat)
        ensures
            r == self@.camera_format,
    {
        self.camera_format
    }

    /// Replaces the capture format, given the `is_opened` outcome; on success
    /// it tells whether the stream must be restarted.
    pub fn set_camera_format(&mut self, new_fmt: CameraFormat, is_opened: Result<bool, String>) -> (r:
        Result<FormatUpdate, NokhwaError>)
        ensures
            format_change(old(self)@, final(self)@, new_fmt, is_opened, r),
    {
        proof {
            use_type_invariant(&*self);
        }
        let current_format = self.camera_format;
        let opened = match is_opened {
            Ok(o) => o,
            Err(why) => return Err(query_failure("Is Stream Open", why)),
        };
        self.camera_format = new_fmt;
        match set_properties(new_fmt, &self.camera_location) {
            Ok(_) => {},
            Err(e) => {
                self.camera_format = current_format;
                return Err(e);
            },
        }
        if opened {
            Ok(FormatUpdate::RestartStream)
        } else {
            Ok(FormatUpdate::Applied)
        }
    }

    /// The result of a format change that restarted the stream, from the
    /// outcome of stopping it (`stop_stream`) and, only where that succeeded,
    /// the outcome of opening it again (`open_stream`).
    pub fn restart_stream(&self, stopped: Result<(), NokhwaError>, reopened: Option<
        Result<(), NokhwaError>,
    >) -> (r: Result<(), NokhwaError>)
        requires
            stopped is Ok ==> reopened is Some,
        ensures
            match stopped {
                Err(e) => r matches Err(x) && x@ == e@,
                Ok(_) => match reopened.unwrap() {
                    Ok(_) => r is Ok,
                    Err(e) => r matches Err(x) && x@ == ErrorView::CouldntOpenDevice(
                        message_text(e@),
                    ),
                },
            },
    {
        match stopped {
            Err(e) => Err(e),
            Ok(_) => match reopened {
                Some(Ok(_)) => Ok(()),
                Some(Err(why)) => Err(NokhwaError::CouldntOpenDevice(why.message())),
                None => Ok(()),
            },
        }
    }

    /// Whether a stream that was stopped for a format change is to be opened
    /// again: exactly when stopping it succeeded.
    pub fn should_reopen(&self, stopped: &Result<(), NokhwaError>) -> (r: bool)
        ensures
            r == stopped is Ok,
    {
        stopped.is_ok()
    }

    /// OpenCV cannot list the resolutions a camera supports.
    pub fn compatible_list_by_resolution(&self, _fourcc: FrameFormat) -> (r: Result<
        HashMap<Resolution, Vec<u32>>,
        NokhwaError,
    >)
        ensures
            r matches Err(e) && e@ == ErrorView::UnsupportedOperation(CaptureAPIBackend::OpenCv),
    {
        Err(NokhwaError::UnsupportedOperation(CaptureAPIBackend::OpenCv))
    }

    /// OpenCV cannot list the frame formats a camera supports.
    pub fn compatible_fourcc(&self) -> (r: Result<Vec<FrameFormat>, NokhwaError>)
        ensures
            r matches Err(e) && e@ == ErrorView::UnsupportedOperation(CaptureAPIBackend::OpenCv),
    {
        Err(NokhwaError::UnsupportedOperation(CaptureAPIBackend::OpenCv))
    }

    /// The resolution OpenCV reports, or 640x480 where a read failed.
    pub fn resolution(&self, width: Result<u32, String>, height: Result<u32, String>) -> (r:
        Resolution)
        ensures
            r == match spec_raw_resolution(width, height) {
                Ok(res) => res,
                Err(_) => Resolution { width_x: 640, height_y: 480 },
            },
    {
        match self.raw_resolution(width, height) {
            Ok(res) => res,
            Err(_) => Resolution::new(640, 480),
        }
    }

    /// Replaces the resolution of the capture format.
    pub fn set_resolution(&mut self, new_res: Resolution, is_opened: Result<bool, String>) -> (r:
        Result<FormatUpdate, NokhwaError>)
        ensures
            format_change(
                old(self)@,
                final(self)@,
                CameraFormat { resolution: new_res, ..old(self)@.camera_format },
                is_opened,
                r,
            ),
    {
        let mut current_fmt = self.camera_format;
        current_fmt.set_resolution(new_res);
        self.set_camera_format(current_fmt, is_opened)
    }

    /// The frame rate OpenCV reports, or 30 where the read failed.
    pub fn frame_rate(&self, fps: Result<u32, String>) -> (r: u32)
        ensures
            r == match fps {
                Ok(f) => f,
                Err(_) => 30,
            },
    {
        match self.raw_framerate(fps) {
            Ok(f) => f,
            Err(_) => 30,
        }
    }

    /// Replaces the frame rate of the capture format.
    pub fn set_frame_rate(&mut self, new_fps: u32, is_opened: Result<bool, String>) -> (r: Result<
        FormatUpdate,
        NokhwaError,
    >)
        ensures
            format_change(
                old(self)@,
                final(self)@,
                CameraFormat { framerate: new_fps, ..old(self)@.camera_format },
                is_opened,
                r,
            ),
    {
        let mut current_fmt = self.camera_format;
        current_fmt.set_framerate(new_fps);
        self.set_camera_format(current_fmt, is_opened)
    }

    /// The frame encoding of the capture format.
    pub fn frame_format(&self) -> (r: FrameFormat)
        ensures
            r == self@.camera_format.format,
    {
        self.camera_format.format()
    }

    /// Replaces the frame encoding of the capture format.
    pub fn set_frame_format(&mut self, fourcc: FrameFormat, is_opened: Result<bool, String>) -> (r:
        Result<FormatUpdate, NokhwaError>)
        ensures
            format_change(
                old(self)@,
                final(self)@,
                CameraFormat { format: fourcc, ..old(self)@.camera_format },
                is_opened,
                r,
            ),
    {
        let mut current_fmt = self.camera_format;
        current_fmt.set_format(fourcc);
        self.set_camera_format(current_fmt, is_opened)
    }

    /// How OpenCV is asked to open the stream again.
    pub fn stream_request(&self, os: &str) -> (r: OpenRequest)
        ensures
            r@ == spec_stream_request(self@.camera_location, os@),
    {
        let api: u32 = get_api_pref_int(os);
        match &self.camera_location {
            CameraIndexType::Index(idx) => OpenRequest::Device {
                index: *idx as i32,
                api_preference: api as i32,
            },
            CameraIndexType::IPCamera(ip) => OpenRequest::Stream {
                address: ip.clone(),
                api_preference: api as i32,
            },
        }
    }

    /// Opens the stream, from the outcome of the open call made as
    /// `stream_request` says and the `is_opened` query after it.
    pub fn open_stream(&self, opened: Result<(), String>, is_opened: Result<bool, String>) -> (r:
        Result<(), NokhwaError>)
        ensures
            result_view(r) == spec_open_stream(opened, is_opened),
    {
        match opened {
            Ok(_) => {},
            Err(why) => {
                return Err(
                    NokhwaError::CouldntOpenDevice(concat_str("Failed to open device: ", why.as_str())),
                );
            },
        }
        match is_opened {
            Ok(open) => {
                if open {
                    return Ok(());
                }
                Err(
                    NokhwaError::CouldntOpenStream(
                        String::from_str("Stream is not opened after stream open attempt opencv"),
                    ),
                )
            },
            Err(why) => Err(query_failure("Is Stream Open After Open Stream", why)),
        }
    }

    /// Whether the stream is open, from the `is_opened` outcome.
    pub fn is_stream_open(&self, is_opened: Result<bool, String>) -> (r: bool)
        ensures
            r == stream_open(is_opened),
    {
        match is_opened {
            Ok(b) => b,
            Err(_) => false,
        }
    }

    /// Whether a frame of the capture format's resolution has a byte count
    /// (`width * height * 3`) that fits in `u32`.
    pub fn frame_fits(&self) -> (r: bool)
        ensures
            r == (frame_len(self@.camera_format.resolution) <= u32::MAX),
    {
        let res = self.camera_format.resolution();
        let w: u64 = res.width() as u64;
        let h: u64 = res.height() as u64;
        assert(w * h <= 0xffff_ffff * 0xffff_ffff) by (nonlinear_arith)
            requires
                w <= 0xffff_ffff,
                h <= 0xffff_ffff,
        ;
        let wh: u64 = w * h;
        if wh > 1431655765u64 {
            false
        } else {
            wh * 3 <= 4294967295u64
        }
    }

    /// A raw frame as an RGB image of the capture format's resolution: cut,
    /// or padded with zero bytes, to fit it.
    pub fn frame_from_raw(&self, raw_frame: Vec<u8>) -> (r: Result<RgbImage, NokhwaError>)
        requires
            frame_len(self@.camera_format.resolution) <= u32::MAX,
        ensures
            ({
                let res = self@.camera_format.resolution;
                if 3 * res.width_x <= usize::MAX {
                    r matches Ok(image) && rgb_image_samples(image) == resized(
                        raw_frame@,
                        frame_len(res) as nat,
                    ) && rgb_image_dimensions(image) == (res.width_x, res.height_y)
                } else {
                    r matches Err(x) && x@ == ErrorView::CouldntCaptureFrame(
                        "Imagebuffer is not large enough! This is probably a bug, please report it!"@,
                    )
                }
            }),
    {
        let mut image_data = raw_frame;
        let camera_resolution = self.camera_format.resolution();
        let w: u32 = camera_resolution.width();
        let h: u32 = camera_resolution.height();
        assert(w * h <= w * h * 3 && 3 * w * h == w * h * 3) by (nonlinear_arith);
        let len: u32 = w * h * 3;
        let ghost raw = image_data@;
        image_data.resize(len as usize, 0u8);
        proof {
            assert(image_data@ =~= resized(raw, len as nat));
        }
        match rgb_image_from_vec(w, h, image_data) {
            Some(image) => Ok(image),
            None => Err(
                capture_failure_text(
                    "Imagebuffer is not large enough! This is probably a bug, please report it!",
                ),
            ),
        }
    }

    /// A frame as an RGB image of the capture format's resolution: the raw
    /// frame cut or padded with zero bytes to fit it. The frame size is
    /// computed only once the raw frame was read, so only then must it fit.
    pub fn frame(&self, is_opened: Result<bool, String>, grab: Option<FrameGrab>) -> (r: Result<
        RgbImage,
        NokhwaError,
    >)
        requires
            stream_open(is_opened) ==> grab is Some,
            spec_raw_frame(is_opened, grab) is Ok ==> frame_len(self@.camera_format.resolution)
                <= u32::MAX,
        ensures
            match spec_raw_frame(is_opened, grab) {
                Err(e) => r matches Err(x) && x@ == e,
                Ok(raw) => {
                    let res = self@.camera_format.resolution;
                    if 3 * res.width_x <= usize::MAX {
                        r matches Ok(image) && rgb_image_samples(image) == resized(
                            raw,
                            frame_len(res) as nat,
                        ) && rgb_image_dimensions(image) == (res.width_x, res.height_y)
                    } else {
                        r matches Err(x) && x@ == ErrorView::CouldntCaptureFrame(
                            "Imagebuffer is not large enough! This is probably a bug, please report it!"@,
                        )
                    }
                },
            },
    {
        let image_data = match self.frame_raw(is_opened, grab) {
            Ok(d) => d,
            Err(e) => return Err(e),
        };
        self.frame_from_raw(image_data)
    }

    /// The raw RGB24 frame.
    pub fn frame_raw(&self, is_opened: Result<bool, String>, grab: Option<FrameGrab>) -> (r: Result<
        Vec<u8>,
        NokhwaError,
    >)
        requires
            stream_open(is_opened) ==> grab is Some,
        ensures
            result_view(r) == spec_raw_frame(is_opened, grab),
    {
        self.raw_frame_vec(is_opened, grab)
    }

    /// Stops the stream, from the outcome of `release`.
    pub fn stop_stream(&self, released: Result<(), String>) -> (r: Result<(), NokhwaError>)
        ensures
            match released {
                Ok(_) => r is Ok,
                Err(why) => r matches Err(e) && e@ == ErrorView::CouldntStopStream(why@),
            },
    {
        match released {
            Ok(_) => Ok(()),
            Err(why) => Err(NokhwaError::CouldntStopStream(why)),
        }
    }
}

} // verus!
