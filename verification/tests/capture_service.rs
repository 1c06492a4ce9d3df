use base64::Engine;
use pluely::capture::{encode_frame, select_primary, Frame};
use pluely::errors::CaptureError;
use pluely::window::MonitorInfo;

fn monitor(width: u32, height: u32, is_primary: bool) -> MonitorInfo {
    MonitorInfo { width, height, is_primary }
}

#[test]
fn selects_first_primary() {
    let ms = vec![monitor(800, 600, false), monitor(2560, 1440, true), monitor(1920, 1080, true)];
    assert_eq!(select_primary(&ms), Ok(1));
}

#[test]
fn no_primary_is_an_error() {
    let ms = vec![monitor(800, 600, false), monitor(1920, 1080, false)];
    assert_eq!(select_primary(&ms), Err(CaptureError::NoPrimaryMonitor));
    let none: Vec<MonitorInfo> = Vec::new();
    assert_eq!(select_primary(&none), Err(CaptureError::NoPrimaryMonitor));
}

#[test]
fn encoded_frame_is_base64_of_a_png_with_the_frame_dimensions() {
    // A 2x2 frame: red, green, blue, white, opaque.
    let rgba: Vec<u8> = vec![
        255, 0, 0, 255, //
        0, 255, 0, 255, //
        0, 0, 255, 255, //
        255, 255, 255, 255,
    ];
    let frame = Frame { width: 2, height: 2, rgba: rgba.clone() };
    let encoded = encode_frame(&frame).unwrap();

    let png = base64::engine::general_purpose::STANDARD
        .decode(encoded.as_bytes())
        .expect("the command result must be valid standard base64");
    // A valid PNG signature.
    assert_eq!(&png[..8], &[137u8, 80, 78, 71, 13, 10, 26, 10]);

    let decoded = image::load_from_memory(&png).expect("the payload must decode as an image");
    assert_eq!(decoded.width(), 2);
    assert_eq!(decoded.height(), 2);
    // PNG is lossless: the pixels survive the round trip.
    assert_eq!(decoded.to_rgba8().into_raw(), rgba);
}

#[test]
fn encoding_a_large_flat_frame_keeps_dimensions() {
    let width: u32 = 31;
    let height: u32 = 17;
    let rgba: Vec<u8> = vec![42; (4 * width * height) as usize];
    let frame = Frame { width, height, rgba };
    let encoded = encode_frame(&frame).unwrap();
    let png = base64::engine::general_purpose::STANDARD.decode(encoded.as_bytes()).unwrap();
    let decoded = image::load_from_memory(&png).unwrap();
    assert_eq!(decoded.width(), width);
    assert_eq!(decoded.height(), height);
}

#[test]
fn zero_sized_frame_is_an_encoding_error() {
    let frame = Frame { width: 0, height: 0, rgba: Vec::new() };
    assert_eq!(encode_frame(&frame), Err(CaptureError::EncodingError));
    let flat = Frame { width: 5, height: 0, rgba: Vec::new() };
    assert_eq!(encode_frame(&flat), Err(CaptureError::EncodingError));
}
