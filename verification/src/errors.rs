//! Error kinds for the window controller and the capture service.
//!
//! Each variant names the operation that failed. The host shell turns a
//! variant into the human-readable string it reports across the command
//! boundary; the library itself keeps the kinds structured.

use vstd::prelude::*;

verus! {

/// Failure kinds of the window controller.
#[derive(Clone, Copy, Debug, PartialEq, Eq, Structural)]
pub enum WindowError {
    /// No window exists under any of the candidate labels.
    WindowNotFound,
    /// The toolkit failed to move the window.
    PositionError,
    /// The toolkit failed to resize the window.
    ResizeError,
    /// The toolkit failed to change the always-on-top flag.
    TopmostError,
    /// The toolkit failed to focus the window.
    FocusError,
    /// The toolkit failed to hide the window.
    VisibilityError,
    /// The toolkit failed to show the window.
    ShowError,
    /// The toolkit failed to report whether the window is visible.
    VisibilityQueryError,
}

/// Failure kinds of the capture service.
#[derive(Clone, Copy, Debug, PartialEq, Eq, Structural)]
pub enum CaptureError {
    /// Enumerating the displays failed outright.
    MonitorEnumerationError,
    /// Enumeration succeeded but no display is flagged primary.
    NoPrimaryMonitor,
    /// Reading the primary display's framebuffer failed.
    CaptureFailed,
    /// Turning the raw pixels into a PNG failed.
    EncodingError,
}

} // verus!
