use vstd::prelude::*;

use crate::band::{buffer_len, buffer_size, Bounds};

verus! {

#[verifier::external_type_specification]
#[verifier::external_body]
pub struct ExImageError(image::ImageError);

/// The PNG stream that the `image` crate's PNG encoder writes for the RGB
/// bytes `pixels` of an image `width` by `height` pixels.
pub uninterp spec fn png_rgb8(pixels: Seq<u8>, width: nat, height: nat) -> Seq<u8>;

/// The eight bytes that open every PNG stream.
pub open spec fn png_signature() -> Seq<u8> {
    seq![137u8, 80u8, 78u8, 71u8, 13u8, 10u8, 26u8, 10u8]
}

/// Relies on `image::codecs::png::PngEncoder::encode` with `ColorType::Rgb8`,
/// writing into a `Vec`: its output depends on the pixels and dimensions
/// alone, opens with the PNG signature (written first by png's
/// `Writer::init`), and a zero width or height is refused with an error.
/// Otherwise it succeeds: 8-bit RGB is a valid color type, the data size
/// matches, and writing into a `Vec` never fails.
#[verifier::external_body]
fn png_encode(pixels: &[u8], width: u32, height: u32) -> (r: Result<Vec<u8>, image::ImageError>)
    requires
        pixels@.len() == 3 * (width * height),
    ensures
        width == 0 || height == 0 ==> r is Err,
        width > 0 && height > 0 ==> r is Ok,
        r matches Ok(bytes) ==> bytes@ == png_rgb8(pixels@, width as nat, height as nat),
        r matches Ok(bytes) ==> bytes@.len() >= 8 && bytes@.subrange(0, 8) == png_signature(),
{
    let mut out: Vec<u8> = Vec::new();
    let encoder = image::codecs::png::PngEncoder::new(&mut out);
    match encoder.encode(pixels, width, height, image::ColorType::Rgb8) {
        Ok(()) => Ok(out),
        Err(e) => Err(e),
    }
}

/// Why a pixel buffer could not be encoded.
#[derive(Debug)]
pub enum EncodeError {
    /// The width or the height does not fit in 32 bits.
    TooLarge,
    /// The width or the height is zero.
    EmptyImage,
    /// The buffer does not hold three bytes for each pixel.
    SizeMismatch,
    /// The PNG encoder failed.
    Encoder(image::ImageError),
}

/// The dimensions are valid for encoding: both fit in 32 bits, neither is
/// zero, and `pixels` holds three bytes per pixel.
pub open spec fn encodable(pixels: Seq<u8>, width: nat, height: nat) -> bool {
    &&& width <= u32::MAX
    &&& height <= u32::MAX
    &&& width > 0
    &&& height > 0
    &&& pixels.len() == buffer_size(width, height)
}

/// Encodes the RGB pixel buffer of an image of `bounds` (width, height) as a
/// PNG stream, ready to be written to a file.
pub fn encode_image(pixels: &[u8], bounds: Bounds<usize>) -> (r: Result<Vec<u8>, EncodeError>)
    ensures
        r matches Err(EncodeError::TooLarge) <==> (bounds.0 > u32::MAX || bounds.1 > u32::MAX),
        r matches Err(EncodeError::EmptyImage) <==> (bounds.0 <= u32::MAX && bounds.1 <= u32::MAX
            && (bounds.0 == 0 || bounds.1 == 0)),
        r matches Err(EncodeError::SizeMismatch) <==> (bounds.0 <= u32::MAX && bounds.1
            <= u32::MAX && bounds.0 > 0 && bounds.1 > 0 && pixels@.len() != buffer_size(
            bounds.0 as nat,
            bounds.1 as nat,
        )),
        r matches Err(EncodeError::Encoder(_)) ==> encodable(
            pixels@,
            bounds.0 as nat,
            bounds.1 as nat,
        ),
        encodable(pixels@, bounds.0 as nat, bounds.1 as nat) ==> r is Ok,
        r matches Ok(bytes) ==> encodable(pixels@, bounds.0 as nat, bounds.1 as nat) && bytes@
            == png_rgb8(pixels@, bounds.0 as nat, bounds.1 as nat) && bytes@.len() >= 8
            && bytes@.subrange(0, 8) == png_signature(),
{
    let width = bounds.0;
    let height = bounds.1;
    if width > u32::MAX as usize || height > u32::MAX as usize {
        return Err(EncodeError::TooLarge);
    }
    if width == 0 || height == 0 {
        return Err(EncodeError::EmptyImage);
    }
    let n = pixels.len();
    match buffer_len(bounds) {
        Some(len) if len == n => {},
        _ => {
            return Err(EncodeError::SizeMismatch);
        },
    }
    match png_encode(pixels, width as u32, height as u32) {
        Ok(bytes) => Ok(bytes),
        Err(e) => Err(EncodeError::Encoder(e)),
    }
}

} // verus!
