//! Verified core of a desktop shell backend.
//!
//! The crate models the backend's two components: a window controller —
//! the main window's state with the transitions the shell's commands
//! perform on it, and the lookup that picks the main window among the open
//! ones — and a capture service — primary-display selection and the
//! encoding of a captured frame to a base64 PNG. The shell around the
//! library owns the real window handle and the display hardware; the
//! decisions and the arithmetic live here.

pub mod capture;
pub mod errors;
pub mod lookup;
pub mod window;
