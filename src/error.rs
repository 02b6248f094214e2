use vstd::prelude::*;

verus! {

/// Why a capture request failed.
#[derive(Clone, Copy, Debug, PartialEq, Eq, Structural)]
pub enum CaptureError {
    /// No window carries the requested label.
    WindowNotFound,
    /// No display could be enumerated.
    NoMonitor,
    /// The target does not overlap the captured frame.
    OutsideVisibleArea,
    /// The frame's pixel count disagrees with its width and height.
    InvalidFrame,
    /// The image encoder rejected the pixels.
    EncodeFailed,
}

impl CaptureError {
    pub open spec fn message_spec(self) -> Seq<char> {
        match self {
            CaptureError::WindowNotFound => "window not found"@,
            CaptureError::NoMonitor => "no monitor detected"@,
            CaptureError::OutsideVisibleArea => "target outside visible area"@,
            CaptureError::InvalidFrame => "invalid frame buffer"@,
            CaptureError::EncodeFailed => "image encoding failed"@,
        }
    }

    /// The human-readable description handed back to the caller.
    pub fn message(&self) -> (r: String)
        ensures
            r@ == self.message_spec(),
    {
        match self {
            CaptureError::WindowNotFound => String::from_str("window not found"),
            CaptureError::NoMonitor => String::from_str("no monitor detected"),
            CaptureError::OutsideVisibleArea => String::from_str("target outside visible area"),
            CaptureError::InvalidFrame => String::from_str("invalid frame buffer"),
            CaptureError::EncodeFailed => String::from_str("image encoding failed"),
        }
    }
}

} // verus!
