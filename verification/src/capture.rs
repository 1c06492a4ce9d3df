//! The capture service: selecting the primary display and encoding a
//! captured frame for transport.
//!
//! The display hardware is read outside the library; what arrives here is
//! a list of display descriptors and a raw RGBA frame. Selection of the
//! primary display and the shape of the result are verified; the PNG and
//! base64 encoders of the `image` and `base64` crates do the byte work
//! behind trusted wrappers.

use vstd::prelude::*;

use crate::errors::CaptureError;
use crate::window::MonitorInfo;

verus! {

/// The PNG encoding, as the `image` crate's PNG encoder with its default
/// settings produces it, of an 8-bit RGBA buffer with the given
/// dimensions. The encoding is a function of the pixel data alone.
pub uninterp spec fn png_of(rgba: Seq<u8>, width: u32, height: u32) -> Seq<u8>;

/// The base64 encoding of a byte sequence in the standard alphabet, with
/// padding and without line breaks.
pub uninterp spec fn b64_of(bytes: Seq<u8>) -> Seq<char>;

/// One captured frame: raw 8-bit RGBA pixels, row-major.
pub struct Frame {
    pub width: u32,
    pub height: u32,
    pub rgba: Vec<u8>,
}

impl Frame {
    /// The buffer holds exactly four bytes per pixel.
    pub open spec fn wf(self) -> bool {
        self.rgba.len() == 4 * self.width * self.height
    }
}

/// Some display in `monitors` is flagged primary.
pub open spec fn has_primary(monitors: Seq<MonitorInfo>) -> bool {
    exists|i: int| 0 <= i < monitors.len() && monitors[i].is_primary
}

/// `i` is the position of the first display flagged primary.
pub open spec fn first_primary(monitors: Seq<MonitorInfo>, i: int) -> bool {
    &&& 0 <= i < monitors.len()
    &&& monitors[i].is_primary
    &&& forall|j: int| 0 <= j < i ==> !monitors[j].is_primary
}

/// Selects the display to capture: the first one flagged primary. There
/// is deliberately no fallback to the first display of all — capturing an
/// arbitrary display would silently produce the wrong picture — so a list
/// with no primary display is an error.
pub fn select_primary(monitors: &Vec<MonitorInfo>) -> (r: Result<usize, CaptureError>)
    ensures
        has_primary(monitors@) ==> (r matches Ok(i) && first_primary(monitors@, i as int)),
        !has_primary(monitors@) ==> r == Err::<usize, CaptureError>(CaptureError::NoPrimaryMonitor),
{
    let mut i: usize = 0;
    while i < monitors.len()
        invariant
            i <= monitors.len(),
            forall|j: int| 0 <= j < i ==> !monitors@[j].is_primary,
        decreases monitors.len() - i,
    {
        if monitors[i].is_primary {
            return Ok(i);
        }
        i = i + 1;
    }
    Err(CaptureError::NoPrimaryMonitor)
}

/// Relies on `image::codecs::png::PngEncoder::write_image` for 8-bit RGBA
/// input: it asserts that the buffer length matches the dimensions (the
/// `requires` rules that out), rejects a zero width or height, and
/// otherwise writes the PNG encoding of the buffer into the given writer;
/// with an in-memory `Vec` writer no write can fail, so for nonzero
/// dimensions it returns `Ok`.
#[verifier::external_body]
fn png_encode_rgba(rgba: &Vec<u8>, width: u32, height: u32) -> (r: Result<Vec<u8>, CaptureError>)
    requires
        rgba@.len() == 4 * width * height,
    ensures
        r is Ok ==> 1 <= width && 1 <= height && r->Ok_0@ == png_of(rgba@, width, height),
        r is Err ==> (width == 0 || height == 0) && r->Err_0 == CaptureError::EncodingError,
{
    let mut buf: Vec<u8> = Vec::new();
    let encoder = image::codecs::png::PngEncoder::new(&mut buf);
    match image::ImageEncoder::write_image(
        encoder,
        rgba.as_slice(),
        width,
        height,
        image::ExtendedColorType::Rgba8,
    ) {
        Ok(()) => Ok(buf),
        Err(_) => Err(CaptureError::EncodingError),
    }
}

/// Relies on `base64::Engine::encode` with the `STANDARD` engine: the
/// standard alphabet, padded, no line wrapping. The encoding depends on
/// the input bytes alone. The engine's internal output-size computation
/// cannot overflow, since a vector never holds more than `isize::MAX`
/// bytes.
#[verifier::external_body]
fn base64_encode(bytes: &Vec<u8>) -> (r: String)
    ensures
        r@ == b64_of(bytes@),
{
    base64::Engine::encode(&base64::engine::general_purpose::STANDARD, bytes)
}

/// Encodes a captured frame as a PNG and then as base64 text, the one
/// form the command boundary can carry. A frame with a zero dimension is
/// rejected by the PNG encoder and reported as `EncodingError`.
pub fn encode_frame(frame: &Frame) -> (r: Result<String, CaptureError>)
    requires
        frame.wf(),
    ensures
        1 <= frame.width && 1 <= frame.height ==> (r matches Ok(s) && s@ == b64_of(
            png_of(frame.rgba@, frame.width, frame.height),
        )),
        frame.width == 0 || frame.height == 0 ==> r == Err::<String, CaptureError>(
            CaptureError::EncodingError,
        ),
{
    match png_encode_rgba(&frame.rgba, frame.width, frame.height) {
        Ok(png) => Ok(base64_encode(&png)),
        Err(e) => Err(e),
    }
}

} // verus!
