use vstd::prelude::*;

use crate::error::LibError;
use crate::modes::{JsSstvMode, bridge_mode_spec, codec_mode, codec_mode_spec};

verus! {

/// The error type of the `rasterwave` codec, carried through opaquely.
#[verifier::external_type_specification]
#[verifier::external_body]
pub struct ExCodecError(rasterwave::Error);

/// Calls `rasterwave::fax::FaxLpm::new`, whose source accepts exactly the line
/// rates `30..=480` and keeps the rate unchanged (`FaxLpm::get` returns it),
/// and returns the accepted rate.
#[verifier::external_body]
fn accepted_lpm(lines_per_minute: u16) -> (r: Result<u16, rasterwave::Error>)
    ensures
        r is Ok <==> 30 <= lines_per_minute <= 480,
        r matches Ok(v) ==> v == lines_per_minute,
{
    match rasterwave::fax::FaxLpm::new(lines_per_minute) {
        Ok(lpm) => Ok(lpm.get()),
        Err(error) => Err(error),
    }
}

/// Renders a `rasterwave::Error` through its `Display` implementation. Nothing
/// is stated of the text.
#[verifier::external_body]
fn codec_error_text(error: &rasterwave::Error) -> String {
    error.to_string()
}

/// Validates a radiofax line rate: it must fit sixteen bits and lie in the
/// range the codec accepts.
pub fn fax_lpm(value: u32) -> (r: Result<u16, LibError>)
    ensures
        value > u16::MAX ==> r matches Err(LibError::LpmTooLarge),
        value <= u16::MAX && 30 <= value <= 480 ==> r == Ok::<u16, LibError>(value as u16),
        value <= u16::MAX && !(30 <= value <= 480) ==> r matches Err(LibError::CodecRejected(_)),
{
    if value > u16::MAX as u32 {
        return Err(LibError::LpmTooLarge);
    }
    match accepted_lpm(value as u16) {
        Ok(lpm) => Ok(lpm),
        Err(error) => Err(LibError::CodecRejected(codec_error_text(&error))),
    }
}

/// A grayscale radiofax page owned by the codec, carried through opaquely.
#[verifier::external_type_specification]
#[verifier::external_body]
pub struct ExGrayImage(rasterwave::GrayImage);

/// An RGB SSTV image owned by the codec, carried through opaquely.
#[verifier::external_type_specification]
#[verifier::external_body]
pub struct ExRgbImage(rasterwave::RgbImage);

/// The pixel count the codec expects: `width * height`, saturated at
/// `usize::MAX`.
pub open spec fn pixel_count_spec(width: u32, height: u32) -> int {
    if width * height > usize::MAX {
        usize::MAX as int
    } else {
        width * height
    }
}

/// The byte count the codec expects of interleaved RGB: three per pixel,
/// saturated at `usize::MAX`.
pub open spec fn rgb_byte_count_spec(width: u32, height: u32) -> int {
    if 3 * pixel_count_spec(width, height) > usize::MAX {
        usize::MAX as int
    } else {
        3 * pixel_count_spec(width, height)
    }
}

/// The page `rasterwave::GrayImage::new` builds from a width, a height and
/// row-major pixels.
pub uninterp spec fn gray_image_of(width: u32, height: u32, pixels: Seq<u8>) -> rasterwave::GrayImage;

/// The image `rasterwave::RgbImage::from_rgb8` builds from a width, a height
/// and interleaved RGB bytes.
pub uninterp spec fn rgb_image_of(width: u32, height: u32, bytes: Seq<u8>) -> rasterwave::RgbImage;

/// Calls `rasterwave::GrayImage::new`, whose source accepts the buffer
/// exactly when its length equals `width * height` (saturated at `usize::MAX`)
/// and then keeps the dimensions and pixels it was given.
#[verifier::external_body]
fn new_gray_image(width: u32, height: u32, pixels: Vec<u8>) -> (r: Result<rasterwave::GrayImage, rasterwave::Error>)
    ensures
        r is Ok <==> pixels@.len() == pixel_count_spec(width, height),
        r matches Ok(image) ==> image == gray_image_of(width, height, pixels@),
{
    rasterwave::GrayImage::new(width, height, pixels)
}

/// Calls `rasterwave::RgbImage::from_rgb8`, whose source accepts the bytes
/// exactly when their length equals three per pixel (saturated at
/// `usize::MAX`) and the pixel count regroups to `width * height`, which
/// holds exactly when the tripled count did not saturate; the image then
/// holds the given dimensions and the pixels regrouped from the bytes.
#[verifier::external_body]
fn new_rgb_image(width: u32, height: u32, bytes: &[u8]) -> (r: Result<rasterwave::RgbImage, rasterwave::Error>)
    ensures
        r is Ok <==> (bytes@.len() == rgb_byte_count_spec(width, height) && 3 * pixel_count_spec(width, height)
            <= usize::MAX),
        r matches Ok(image) ==> image == rgb_image_of(width, height, bytes@),
{
    rasterwave::RgbImage::from_rgb8(width, height, bytes)
}

/// Builds the grayscale page a radiofax encoder transmits, refusing a buffer
/// whose length is not `width * height`.
pub fn fax_image(width: u32, height: u32, pixels: Vec<u8>) -> (r: Result<rasterwave::GrayImage, LibError>)
    ensures
        r is Ok <==> pixels@.len() == pixel_count_spec(width, height),
        r matches Ok(image) ==> image == gray_image_of(width, height, pixels@),
        r is Err ==> r matches Err(LibError::ImageRejected(_)),
{
    match new_gray_image(width, height, pixels) {
        Ok(image) => Ok(image),
        Err(error) => Err(LibError::ImageRejected(codec_error_text(&error))),
    }
}

/// Builds the RGB image an SSTV encoder transmits from interleaved bytes,
/// refusing a buffer that does not hold three bytes per pixel.
pub fn sstv_image(width: u32, height: u32, bytes: &[u8]) -> (r: Result<rasterwave::RgbImage, LibError>)
    ensures
        r is Ok <==> (bytes@.len() == rgb_byte_count_spec(width, height) && 3 * pixel_count_spec(width, height)
            <= usize::MAX),
        r matches Ok(image) ==> image == rgb_image_of(width, height, bytes@),
        r is Err ==> r matches Err(LibError::ImageRejected(_)),
{
    match new_rgb_image(width, height, bytes) {
        Ok(image) => Ok(image),
        Err(error) => Err(LibError::ImageRejected(codec_error_text(&error))),
    }
}

/// The width and height of the image that `rasterwave::SstvMode::spec`
/// gives for a mode.
pub uninterp spec fn mode_dimensions_of(mode: rasterwave::SstvMode) -> (u32, u32);

/// Calls `rasterwave::SstvMode::spec` and keeps the image width and height of
/// the specification it returns. Its source finds the mode in the codec's
/// mode table and panics for a mode missing from it; the table lists every
/// mode that a bridge mode names, which `requires` asks for.
#[verifier::external_body]
fn mode_dimensions(mode: rasterwave::SstvMode) -> (r: (u32, u32))
    requires
        bridge_mode_spec(mode) is Some,
    ensures
        r == mode_dimensions_of(mode),
{
    let spec = mode.spec();
    (spec.width, spec.height)
}

/// Builds the image an SSTV encoder transmits in `mode` from interleaved RGB
/// bytes, sized by the mode's own width and height.
pub fn sstv_mode_image(mode: JsSstvMode, bytes: &[u8]) -> (r: Result<rasterwave::RgbImage, LibError>)
    ensures
        ({
            let (width, height) = mode_dimensions_of(codec_mode_spec(mode));
            &&& r is Ok <==> (bytes@.len() == rgb_byte_count_spec(width, height) && 3 * pixel_count_spec(width, height)
                <= usize::MAX)
            &&& r matches Ok(image) ==> image == rgb_image_of(width, height, bytes@)
            &&& r is Err ==> r matches Err(LibError::ImageRejected(_))
        }),
{
    let codec = codec_mode(mode);
    assert(codec_mode_spec(mode) == codec);
    let (width, height) = mode_dimensions(codec);
    sstv_image(width, height, bytes)
}

} // verus!
