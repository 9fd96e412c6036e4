//! Capture-device logic of an OpenCV camera backend: the device state, the
//! decisions taken around each OpenCV call, frame conversion and error text.

pub mod error;
pub mod imaging;
pub mod laws;
pub mod opencv_backend;
pub mod text;
pub mod types;

pub use error::{ErrorView, NokhwaError};

pub use types::{
    CameraFormat, CameraIndexType, CameraInfo, CaptureAPIBackend, FrameFormat, Resolution,
};
