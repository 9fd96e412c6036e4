//! Properties of the capture backend that span several of its functions.

use vstd::prelude::*;

use crate::error::NokhwaError;
use crate::opencv_backend::{
    format_change, os_api_preference, rgb_bytes, requested_api, resized, spec_new, spec_plan_open,
    spec_open_stream, spec_raw_frame, spec_raw_framerate, spec_raw_resolution, spec_stream_request, stream_open,
    DeviceView, FormatUpdate, FrameGrab, OpenRequestView, CAP_ANY,
};
use crate::types::{CameraFormat, FrameFormat, LocationView, Resolution};

verus! {

/// A camera is an IP camera exactly when it is not found by an OS index:
/// `is_ip_camera` always answers the opposite of `is_index_camera`.
pub proof fn camera_kind_is_exclusive(device: DeviceView)
    ensures
        (device.camera_location is IPCamera) == !(device.camera_location is Index),
{
}

/// A format change (`set_camera_format`, `set_resolution`, `set_frame_rate`,
/// `set_frame_format`) never touches the camera location, the camera
/// information or the API preference; it succeeds exactly when the
/// `is_opened` query did, and then the new format is the one read back;
/// when it fails, the device is unchanged.
pub proof fn format_change_keeps_identity(
    before: DeviceView,
    after: DeviceView,
    new_fmt: CameraFormat,
    is_opened: Result<bool, String>,
    r: Result<FormatUpdate, NokhwaError>,
)
    requires
        format_change(before, after, new_fmt, is_opened, r),
    ensures
        after.camera_location == before.camera_location,
        after.camera_info == before.camera_info,
        after.api_preference == before.api_preference,
        r is Ok <==> is_opened is Ok,
        r is Ok ==> after.camera_format == new_fmt,
        r is Err ==> after == before,
{
}

/// The format a run of format changes leaves: the last one whose
/// `is_opened` query succeeded, else the format the run started with.
pub open spec fn last_applied_format(
    initial: CameraFormat,
    formats: Seq<CameraFormat>,
    outcomes: Seq<Result<bool, String>>,
) -> CameraFormat
    decreases formats.len(),
{
    if formats.len() == 0 {
        initial
    } else if outcomes[formats.len() - 1] is Ok {
        formats.last()
    } else {
        last_applied_format(initial, formats.drop_last(), outcomes.drop_last())
    }
}

/// Over any run of calls on a device: the calls other than format changes
/// take the device by shared reference and change nothing, and a run of
/// format changes (`states[i]` to `states[i + 1]` asking for `formats[i]`
/// with `is_opened` outcome `outcomes[i]`) keeps the camera location, the
/// camera information and the API preference, and leaves the format of the
/// last change that went through, or the starting format where none did.
pub proof fn format_history(
    states: Seq<DeviceView>,
    formats: Seq<CameraFormat>,
    outcomes: Seq<Result<bool, String>>,
    results: Seq<Result<FormatUpdate, NokhwaError>>,
)
    requires
        states.len() == formats.len() + 1,
        outcomes.len() == formats.len(),
        results.len() == formats.len(),
        forall|i: int|
            0 <= i < formats.len() ==> #[trigger] format_change(
                states[i],
                states[i + 1],
                formats[i],
                outcomes[i],
                results[i],
            ),
    ensures
        states.last().camera_location == states[0].camera_location,
        states.last().camera_info == states[0].camera_info,
        states.last().api_preference == states[0].api_preference,
        states.last().camera_format == last_applied_format(
            states[0].camera_format,
            formats,
            outcomes,
        ),
    decreases formats.len(),
{
    if formats.len() > 0 {
        let n: int = formats.len() - 1;
        let prefix = states.drop_last();
        assert forall|i: int| 0 <= i < n implies #[trigger] format_change(
            prefix[i],
            prefix[i + 1],
            formats.drop_last()[i],
            outcomes.drop_last()[i],
            results.drop_last()[i],
        ) by {
            assert(format_change(states[i], states[i + 1], formats[i], outcomes[i], results[i]));
        }
        format_history(prefix, formats.drop_last(), outcomes.drop_last(), results.drop_last());
        assert(format_change(states[n], states[n + 1], formats[n], outcomes[n], results[n]));
        format_change_keeps_identity(states[n], states[n + 1], formats[n], outcomes[n], results[n]);
    }
}

/// A device that was created keeps as its API preference the one asked for,
/// or, where none was, the operating system's.
pub proof fn new_keeps_requested_api(
    location: LocationView,
    cfmt: Option<CameraFormat>,
    api_pref: Option<u32>,
    os: Seq<char>,
    opened: Result<(), String>,
)
    requires
        spec_new(location, cfmt, api_pref, os, opened) is Ok,
    ensures
        match spec_new(location, cfmt, api_pref, os, opened) {
            Ok(device) => device.api_preference == requested_api(api_pref, os)
                && device.camera_location == location && device.camera_format == (match cfmt {
                Some(f) => f,
                None => CameraFormat {
                    resolution: Resolution { width_x: 640, height_y: 480 },
                    format: FrameFormat::MJPEG,
                    framerate: 15,
                },
            }) && opened is Ok,
            Err(_) => false,
        },
{
}

/// Reopening a device's stream asks OpenCV for the same camera (the same
/// index, or the same address) as creating the device did.
pub proof fn reopen_targets_same_camera(
    location: LocationView,
    api_pref: Option<u32>,
    os: Seq<char>,
    reopen_os: Seq<char>,
)
    requires
        spec_plan_open(location, api_pref, os) is Ok,
    ensures
        match spec_plan_open(location, api_pref, os) {
            Ok(plan) => match (plan.request, spec_stream_request(location, reopen_os)) {
                (
                    OpenRequestView::Device { index: a, .. },
                    OpenRequestView::Device { index: b, .. },
                ) => a == b,
                (
                    OpenRequestView::Stream { address: a, .. },
                    OpenRequestView::Stream { address: b, .. },
                ) => a == b,
                _ => false,
            },
            Err(_) => false,
        },
{
}

/// A raw frame holds three bytes per pixel: pixel `i`'s red, green and blue
/// at `3i`, `3i + 1` and `3i + 2`, taken from its BGR channels in reverse.
pub proof fn rgb_bytes_layout(pixels: Seq<[u8; 3]>, i: int)
    requires
        0 <= i < pixels.len(),
    ensures
        rgb_bytes(pixels).len() == 3 * pixels.len(),
        rgb_bytes(pixels)[3 * i] == pixels[i]@[2],
        rgb_bytes(pixels)[3 * i + 1] == pixels[i]@[1],
        rgb_bytes(pixels)[3 * i + 2] == pixels[i]@[0],
{
    assert((3 * i) / 3 == i && (3 * i) % 3 == 0) by (nonlinear_arith);
    assert((3 * i + 1) / 3 == i && (3 * i + 1) % 3 == 1) by (nonlinear_arith);
    assert((3 * i + 2) / 3 == i && (3 * i + 2) % 3 == 2) by (nonlinear_arith);
}

/// The bytes of a frame image are the raw frame's bytes, as many as fit,
/// followed by zero bytes up to the image's size.
pub proof fn resized_keeps_frame_bytes(data: Seq<u8>, len: nat, i: int)
    requires
        0 <= i < len,
    ensures
        resized(data, len).len() == len,
        i < data.len() ==> resized(data, len)[i] == data[i],
        i >= data.len() ==> resized(data, len)[i] == 0,
{
}

/// A frame read from an open stream whose read, emptiness, size, continuity
/// and pixel queries all succeed (a positive width, not empty, continuous)
/// gives every pixel OpenCV delivered, whatever the width: three bytes per
/// pixel, pixel `i`'s BGR channels reversed at bytes `3i`, `3i + 1`, `3i + 2`.
pub proof fn raw_frame_holds_every_pixel(
    is_opened: Result<bool, String>,
    g: FrameGrab,
    width: i32,
    pixels: Seq<[u8; 3]>,
)
    requires
        stream_open(is_opened),
        g.read matches Ok(true),
        g.empty matches Ok(false),
        g.width matches Ok(w) && w == width,
        width > 0,
        g.continuous matches Ok(true),
        g.pixels matches Ok(p) && p@ == pixels,
    ensures
        spec_raw_frame(is_opened, Some(g)) matches Ok(bytes) && bytes.len() == 3 * pixels.len() && (
        forall|i: int|
            0 <= i < pixels.len() ==> {
                &&& #[trigger] bytes[3 * i] == pixels[i]@[2]
                &&& bytes[3 * i + 1] == pixels[i]@[1]
                &&& bytes[3 * i + 2] == pixels[i]@[0]
            }),
{
    assert forall|i: int| 0 <= i < pixels.len() implies {
        &&& #[trigger] rgb_bytes(pixels)[3 * i] == pixels[i]@[2]
        &&& rgb_bytes(pixels)[3 * i + 1] == pixels[i]@[1]
        &&& rgb_bytes(pixels)[3 * i + 2] == pixels[i]@[0]
    } by {
        rgb_bytes_layout(pixels, i);
    }
}

/// Opening a camera asks OpenCV for the API preference that was given, or the
/// operating system's where none was, and the device keeps that same value; an
/// OS index is asked for as it is, an IP camera's address as it is with
/// `CAP_ANY`.
pub proof fn plan_uses_requested_api(location: LocationView, api_pref: Option<u32>, os: Seq<char>)
    requires
        spec_plan_open(location, api_pref, os) is Ok,
    ensures
        match spec_plan_open(location, api_pref, os) {
            Ok(plan) => {
                &&& (match api_pref {
                    Some(a) => plan.api_preference == a,
                    None => plan.api_preference == os_api_preference(os),
                })
                &&& match (location, plan.request) {
                    (
                        LocationView::Index(i),
                        OpenRequestView::Device { index, api_preference },
                    ) => index == i && api_preference == plan.api_preference,
                    (
                        LocationView::IPCamera(a),
                        OpenRequestView::Stream { address, api_preference },
                    ) => address == a && api_preference == CAP_ANY,
                    _ => false,
                }
            },
            Err(_) => false,
        },
{
}

/// When both property reads succeed, the resolution reported is exactly the
/// width and height read.
pub proof fn raw_resolution_is_what_was_read(w: u32, h: u32)
    ensures
        spec_raw_resolution(Ok(w), Ok(h)) == Ok::<Resolution, crate::error::ErrorView>(
            Resolution { width_x: w, height_y: h },
        ),
{
}

/// When the FPS read succeeds, the frame rate reported is exactly the value read.
pub proof fn raw_framerate_is_what_was_read(f: u32)
    ensures
        spec_raw_framerate(Ok(f)) == Ok::<u32, crate::error::ErrorView>(f),
{
}

/// A format change on an open stream always asks for a restart, whatever the
/// new format; on a closed stream it never does.
pub proof fn open_stream_always_restarts(
    before: DeviceView,
    after: DeviceView,
    new_fmt: CameraFormat,
    open: bool,
    r: Result<FormatUpdate, NokhwaError>,
)
    requires
        format_change(before, after, new_fmt, Ok(open), r),
    ensures
        open ==> r == Ok::<FormatUpdate, NokhwaError>(FormatUpdate::RestartStream),
        !open ==> r == Ok::<FormatUpdate, NokhwaError>(FormatUpdate::Applied),
        after.camera_format == new_fmt,
{
}

/// Opening the stream again asks OpenCV for the operating system's API
/// preference, with the device's index or address.
pub proof fn reopen_uses_os_preference(location: LocationView, os: Seq<char>)
    ensures
        match (location, spec_stream_request(location, os)) {
            (LocationView::Index(i), OpenRequestView::Device { index, api_preference }) => index
                == i as i32 && api_preference == os_api_preference(os),
            (
                LocationView::IPCamera(a),
                OpenRequestView::Stream { address, api_preference },
            ) => address == a && api_preference == os_api_preference(os),
            _ => false,
        },
{
}

/// Opening the stream succeeds exactly when the open call succeeded and the
/// stream then reports itself open.
pub proof fn open_stream_succeeds_when_open(opened: Result<(), String>, is_opened: Result<bool, String>)
    ensures
        spec_open_stream(opened, is_opened) is Ok <==> (opened is Ok && is_opened matches Ok(true)),
{
}

/// No frame is read from a stream that is not open, whatever a grab would give.
pub proof fn closed_stream_gives_no_frame(
    is_opened: Result<bool, String>,
    g1: Option<FrameGrab>,
    g2: Option<FrameGrab>,
)
    requires
        !stream_open(is_opened),
    ensures
        spec_raw_frame(is_opened, g1) is Err,
        spec_raw_frame(is_opened, g1) == spec_raw_frame(is_opened, g2),
{
}

} // verus!
