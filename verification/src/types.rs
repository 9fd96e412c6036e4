//! The camera description types that the backend works with.

use vstd::prelude::*;
use vstd::string::*;

use crate::text::{decimal_string, decimal_text};

verus! {

/// A frame size in pixels.
#[derive(Clone, Copy, Debug, PartialEq, Eq, Hash, Structural)]
pub struct Resolution {
    pub width_x: u32,
    pub height_y: u32,
}

impl Resolution {
    /// A resolution of `x` by `y` pixels.
    pub fn new(x: u32, y: u32) -> (r: Self)
        ensures
            r.width_x == x,
            r.height_y == y,
    {
        Resolution { width_x: x, height_y: y }
    }

    /// The width in pixels.
    pub fn width(&self) -> (r: u32)
        ensures
            r == self.width_x,
    {
        self.width_x
    }

    /// The height in pixels.
    pub fn height(&self) -> (r: u32)
        ensures
            r == self.height_y,
    {
        self.height_y
    }
}

impl View for Resolution {
    type V = Resolution;

    open spec fn view(&self) -> Resolution {
        *self
    }
}

/// The encoding of the frames a camera delivers.
#[derive(Clone, Copy, Debug, PartialEq, Eq, Hash, Structural)]
pub enum FrameFormat {
    MJPEG,
    YUYV,
}

/// The display name of a frame format.
pub open spec fn frame_format_text(f: FrameFormat) -> Seq<char> {
    match f {
        FrameFormat::MJPEG => "MJPEG"@,
        FrameFormat::YUYV => "YUYV"@,
    }
}

impl FrameFormat {
    /// The display name of this format.
    pub fn name(&self) -> (r: &'static str)
        ensures
            r@ == frame_format_text(*self),
    {
        match self {
            FrameFormat::MJPEG => "MJPEG",
            FrameFormat::YUYV => "YUYV",
        }
    }
}

/// The capture backends a device can be driven by.
#[derive(Clone, Copy, Debug, PartialEq, Eq, Hash, Structural)]
pub enum CaptureAPIBackend {
    Auto,
    AVFoundation,
    Video4Linux,
    UniversalVideoClass,
    MediaFoundation,
    OpenCv,
    GStreamer,
}

/// The display name of a backend (its variant name).
pub open spec fn backend_text(b: CaptureAPIBackend) -> Seq<char> {
    match b {
        CaptureAPIBackend::Auto => "Auto"@,
        CaptureAPIBackend::AVFoundation => "AVFoundation"@,
        CaptureAPIBackend::Video4Linux => "Video4Linux"@,
        CaptureAPIBackend::UniversalVideoClass => "UniversalVideoClass"@,
        CaptureAPIBackend::MediaFoundation => "MediaFoundation"@,
        CaptureAPIBackend::OpenCv => "OpenCv"@,
        CaptureAPIBackend::GStreamer => "GStreamer"@,
    }
}

impl CaptureAPIBackend {
    /// The display name of this backend.
    pub fn name(&self) -> (r: &'static str)
        ensures
            r@ == backend_text(*self),
    {
        match self {
            CaptureAPIBackend::Auto => "Auto",
            CaptureAPIBackend::AVFoundation => "AVFoundation",
            CaptureAPIBackend::Video4Linux => "Video4Linux",
            CaptureAPIBackend::UniversalVideoClass => "UniversalVideoClass",
            CaptureAPIBackend::MediaFoundation => "MediaFoundation",
            CaptureAPIBackend::OpenCv => "OpenCv",
            CaptureAPIBackend::GStreamer => "GStreamer",
        }
    }
}

/// A capture format: resolution, frame encoding and frame rate.
#[derive(Clone, Copy, Debug, PartialEq, Eq, Hash, Structural)]
pub struct CameraFormat {
    pub resolution: Resolution,
    pub format: FrameFormat,
    pub framerate: u32,
}

/// The format a device gets when none is asked for: 640x480, MJPEG, 15 FPS.
pub open spec fn default_format() -> CameraFormat {
    CameraFormat {
        resolution: Resolution { width_x: 640, height_y: 480 },
        format: FrameFormat::MJPEG,
        framerate: 15,
    }
}

impl CameraFormat {
    /// A format of the given resolution, encoding and frame rate.
    pub fn new(resolution: Resolution, format: FrameFormat, framerate: u32) -> (r: Self)
        ensures
            r == (CameraFormat { resolution, format, framerate }),
    {
        CameraFormat { resolution, format, framerate }
    }

    /// The resolution of this format.
    pub fn resolution(&self) -> (r: Resolution)
        ensures
            r == self.resolution,
    {
        self.resolution
    }

    /// Replaces the resolution.
    pub fn set_resolution(&mut self, resolution: Resolution)
        ensures
            *final(self) == (CameraFormat { resolution, ..*old(self) }),
    {
        self.resolution = resolution;
    }

    /// The frame rate of this format.
    pub fn frame_rate(&self) -> (r: u32)
        ensures
            r == self.framerate,
    {
        self.framerate
    }

    /// Replaces the frame rate.
    pub fn set_framerate(&mut self, framerate: u32)
        ensures
            *final(self) == (CameraFormat { framerate, ..*old(self) }),
    {
        self.framerate = framerate;
    }

    /// The frame encoding of this format.
    pub fn format(&self) -> (r: FrameFormat)
        ensures
            r == self.format,
    {
        self.format
    }

    /// Replaces the frame encoding.
    pub fn set_format(&mut self, format: FrameFormat)
        ensures
            *final(self) == (CameraFormat { format, ..*old(self) }),
    {
        self.format = format;
    }
}

impl Default for CameraFormat {
    fn default() -> (r: Self)
        ensures
            r == default_format(),
    {
        CameraFormat {
            resolution: Resolution { width_x: 640, height_y: 480 },
            format: FrameFormat::MJPEG,
            framerate: 15,
        }
    }
}

/// Where a camera is found: an index given by the OS, or the address of an IP camera.
#[derive(Clone, Debug, PartialEq, Eq, Hash)]
pub enum CameraIndexType {
    Index(u32),
    IPCamera(String),
}

/// A camera location as plain values.
pub enum LocationView {
    Index(u32),
    IPCamera(Seq<char>),
}

impl View for CameraIndexType {
    type V = LocationView;

    open spec fn view(&self) -> LocationView {
        match self {
            CameraIndexType::Index(i) => LocationView::Index(*i),
            CameraIndexType::IPCamera(s) => LocationView::IPCamera(s@),
        }
    }
}

/// The text of a location: the decimal index, or the address.
pub open spec fn location_text(l: LocationView) -> Seq<char> {
    match l {
        LocationView::Index(i) => decimal_text(i as nat),
        LocationView::IPCamera(s) => s,
    }
}

impl CameraIndexType {
    /// The text of this location, as its `Display` renders it.
    pub fn to_string(&self) -> (r: String)
        ensures
            r@ == location_text(self@),
    {
        match self {
            CameraIndexType::Index(i) => decimal_string(*i as u64),
            CameraIndexType::IPCamera(s) => s.clone(),
        }
    }

    /// A copy of this location.
    pub fn duplicate(&self) -> (r: Self)
        ensures
            r@ == self@,
    {
        match self {
            CameraIndexType::Index(i) => CameraIndexType::Index(*i),
            CameraIndexType::IPCamera(s) => CameraIndexType::IPCamera(s.clone()),
        }
    }
}

/// What a device tells about itself.
#[derive(Clone, Debug, PartialEq, Eq, Hash)]
pub struct CameraInfo {
    human_name: String,
    description: String,
    misc: String,
    index: usize,
}

/// Camera information as plain values.
pub struct CameraInfoView {
    pub human_name: Seq<char>,
    pub description: Seq<char>,
    pub misc: Seq<char>,
    pub index: usize,
}

impl View for CameraInfo {
    type V = CameraInfoView;

    closed spec fn view(&self) -> CameraInfoView {
        CameraInfoView {
            human_name: self.human_name@,
            description: self.description@,
            misc: self.misc@,
            index: self.index,
        }
    }
}

impl CameraInfo {
    /// Camera information made of the given parts.
    pub fn new(human_name: String, description: String, misc: String, index: usize) -> (r: Self)
        ensures
            r@ == (CameraInfoView {
                human_name: human_name@,
                description: description@,
                misc: misc@,
                index,
            }),
    {
        CameraInfo { human_name, description, misc, index }
    }

    /// The human-readable name.
    pub fn human_name(&self) -> (r: String)
        ensures
            r@ == self@.human_name,
    {
        self.human_name.clone()
    }

    /// The description.
    pub fn description(&self) -> (r: String)
        ensures
            r@ == self@.description,
    {
        self.description.clone()
    }

    /// Further information.
    pub fn misc(&self) -> (r: String)
        ensures
            r@ == self@.misc,
    {
        self.misc.clone()
    }

    /// The index of the camera.
    pub fn index(&self) -> (r: usize)
        ensures
            r == self@.index,
    {
        self.index
    }

    /// A copy of this information.
    pub fn duplicate(&self) -> (r: Self)
        ensures
            r@ == self@,
    {
        CameraInfo {
            human_name: self.human_name.clone(),
            description: self.description.clone(),
            misc: self.misc.clone(),
            index: self.index,
        }
    }
}

} // verus!
