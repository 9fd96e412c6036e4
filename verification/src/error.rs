//! The errors of the capture backend and their messages.

use vstd::prelude::*;
use vstd::string::*;

use crate::types::{backend_text, frame_format_text, CaptureAPIBackend, FrameFormat};

verus! {

/// All errors of the capture backend.
#[derive(Debug, Clone)]
pub enum NokhwaError {
    GeneralError(String),
    CouldntOpenDevice(String),
    CouldntQueryDevice { property: String, error: String },
    CouldntSetProperty { property: String, value: String, error: String },
    CouldntOpenStream(String),
    CouldntCaptureFrame(String),
    CouldntDecompressFrame { src: FrameFormat, destination: String, error: String },
    CouldntStopStream(String),
    UnsupportedOperation(CaptureAPIBackend),
    NotImplemented(String),
}

/// An error as plain values.
pub enum ErrorView {
    GeneralError(Seq<char>),
    CouldntOpenDevice(Seq<char>),
    CouldntQueryDevice { property: Seq<char>, error: Seq<char> },
    CouldntSetProperty { property: Seq<char>, value: Seq<char>, error: Seq<char> },
    CouldntOpenStream(Seq<char>),
    CouldntCaptureFrame(Seq<char>),
    CouldntDecompressFrame { src: FrameFormat, destination: Seq<char>, error: Seq<char> },
    CouldntStopStream(Seq<char>),
    UnsupportedOperation(CaptureAPIBackend),
    NotImplemented(Seq<char>),
}

impl View for NokhwaError {
    type V = ErrorView;

    open spec fn view(&self) -> ErrorView {
        match self {
            NokhwaError::GeneralError(m) => ErrorView::GeneralError(m@),
            NokhwaError::CouldntOpenDevice(m) => ErrorView::CouldntOpenDevice(m@),
            NokhwaError::CouldntQueryDevice { property, error } => ErrorView::CouldntQueryDevice {
                property: property@,
                error: error@,
            },
            NokhwaError::CouldntSetProperty { property, value, error } =>
                ErrorView::CouldntSetProperty { property: property@, value: value@, error: error@ },
            NokhwaError::CouldntOpenStream(m) => ErrorView::CouldntOpenStream(m@),
            NokhwaError::CouldntCaptureFrame(m) => ErrorView::CouldntCaptureFrame(m@),
            NokhwaError::CouldntDecompressFrame { src, destination, error } =>
                ErrorView::CouldntDecompressFrame {
                    src: *src,
                    destination: destination@,
                    error: error@,
                },
            NokhwaError::CouldntStopStream(m) => ErrorView::CouldntStopStream(m@),
            NokhwaError::UnsupportedOperation(b) => ErrorView::UnsupportedOperation(*b),
            NokhwaError::NotImplemented(m) => ErrorView::NotImplemented(m@),
        }
    }
}

/// The message of an error, as its `Display` renders it.
pub open spec fn message_text(e: ErrorView) -> Seq<char> {
    match e {
        ErrorView::GeneralError(m) => "Error: "@ + m,
        ErrorView::CouldntOpenDevice(m) => "Could not open device: "@ + m,
        ErrorView::CouldntQueryDevice { property, error } =>
            "Could not query device property "@ + property + ": "@ + error,
        ErrorView::CouldntSetProperty { property, value, error } =>
            "Could not set device property "@ + property + " with value "@ + value + ": "@ + error,
        ErrorView::CouldntOpenStream(m) => "Could not open device stream: "@ + m,
        ErrorView::CouldntCaptureFrame(m) => "Could not capture frame: "@ + m,
        ErrorView::CouldntDecompressFrame { src, destination, error } =>
            "Could not decompress frame "@ + frame_format_text(src) + " to "@ + destination + ": "@
                + error,
        ErrorView::CouldntStopStream(m) => "Could not stop stream: "@ + m,
        ErrorView::UnsupportedOperation(b) =>
            "This operation is not supported by backend "@ + backend_text(b) + "."@,
        ErrorView::NotImplemented(m) => "This operation is not implemented yet: "@ + m,
    }
}

/// A result with its value and its error taken by their views.
pub open spec fn result_view<T: View>(r: Result<T, NokhwaError>) -> Result<T::V, ErrorView> {
    match r {
        Ok(v) => Ok(v@),
        Err(e) => Err(e@),
    }
}

/// `prefix` followed by `body`.
fn prefixed(prefix: &str, body: &String) -> (r: String)
    ensures
        r@ == prefix@ + body@,
{
    let mut out = String::from_str(prefix);
    out.append(body.as_str());
    out
}

impl NokhwaError {
    /// The message of this error, as its `Display` renders it.
    pub fn message(&self) -> (r: String)
        ensures
            r@ == message_text(self@),
    {
        match self {
            NokhwaError::GeneralError(m) => prefixed("Error: ", m),
            NokhwaError::CouldntOpenDevice(m) => prefixed("Could not open device: ", m),
            NokhwaError::CouldntQueryDevice { property, error } => {
                let mut out = prefixed("Could not query device property ", property);
                out.append(": ");
                out.append(error.as_str());
                out
            },
            NokhwaError::CouldntSetProperty { property, value, error } => {
                let mut out = prefixed("Could not set device property ", property);
                out.append(" with value ");
                out.append(value.as_str());
                out.append(": ");
                out.append(error.as_str());
                out
            },
            NokhwaError::CouldntOpenStream(m) => prefixed("Could not open device stream: ", m),
            NokhwaError::CouldntCaptureFrame(m) => prefixed("Could not capture frame: ", m),
            NokhwaError::CouldntDecompressFrame { src, destination, error } => {
                let mut out = String::from_str("Could not decompress frame ");
                out.append(src.name());
                out.append(" to ");
                out.append(destination.as_str());
                out.append(": ");
                out.append(error.as_str());
                out
            },
            NokhwaError::CouldntStopStream(m) => prefixed("Could not stop stream: ", m),
            NokhwaError::UnsupportedOperation(b) => {
                let mut out = String::from_str("This operation is not supported by backend ");
                out.append(b.name());
                out.append(".");
                out
            },
            NokhwaError::NotImplemented(m) => prefixed("This operation is not implemented yet: ", m),
        }
    }
}

} // verus!
