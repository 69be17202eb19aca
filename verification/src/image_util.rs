//! Optional image pre-processing: embed images at display resolution rather
//! than at source resolution.

use vstd::prelude::*;

use std::io::Cursor;

use crate::error::{PublishError, Result};

use crate::util::copy_slice;

verus! {

/// The width and height of the image encoded in `bytes`, as the `image` crate
/// decodes it (format guessed from the content), or `None` when it cannot be
/// decoded.
pub uninterp spec fn decoded_size(bytes: Seq<u8>) -> Option<(u32, u32)>;

/// The PNG encoding of the image in `bytes` resized to fit `max` x `max` with
/// its aspect ratio kept (`DynamicImage::resize` with the Lanczos3 filter,
/// then `write_to` with `ImageFormat::Png`), or `None` when the image cannot
/// be decoded or encoded.
pub uninterp spec fn downscaled_png(bytes: Seq<u8>, max: u32) -> Option<Seq<u8>>;

/// Decodes an image (`ImageReader::with_guessed_format`, then `decode`),
/// handing back its width and height, or the decoder's message.
#[verifier::external_body]
fn decode_size(bytes: &[u8]) -> (r: std::result::Result<(u32, u32), String>)
    ensures
        r is Ok <==> decoded_size(bytes@) is Some,
        r matches Ok((w, h)) ==> decoded_size(bytes@) == Some((w, h)),
{
    let reader = image::ImageReader::new(Cursor::new(bytes)).with_guessed_format().map_err(|e| e.to_string())?;
    let img = reader.decode().map_err(|e| e.to_string())?;
    Ok((img.width(), img.height()))
}

/// Decodes the image in `bytes`, resizes it to fit `max` x `max` preserving
/// the aspect ratio with a Lanczos3 filter (`DynamicImage::resize`), and
/// encodes it as PNG (`write_to` with `ImageFormat::Png`); the result is
/// named by [`downscaled_png`]. A decodable image whose resize cannot be
/// encoded is the only other failure.
#[verifier::external_body]
fn resize_png(bytes: &[u8], max: u32) -> (r: std::result::Result<Vec<u8>, String>)
    ensures
        r is Ok <==> downscaled_png(bytes@, max) is Some,
        r matches Ok(out) ==> downscaled_png(bytes@, max) == Some(out@),
        decoded_size(bytes@) is None ==> r is Err,
{
    let reader = image::ImageReader::new(Cursor::new(bytes)).with_guessed_format().map_err(|e| e.to_string())?;
    let img = reader.decode().map_err(|e| e.to_string())?;
    let resized = img.resize(max, max, image::imageops::FilterType::Lanczos3);
    let mut out = Vec::new();
    resized.write_to(&mut Cursor::new(&mut out), image::ImageFormat::Png).map_err(|e| e.to_string())?;
    Ok(out)
}


/// Decode `bytes`, downscale so neither side exceeds `max_dimension`
/// (preserving aspect ratio with a high-quality Lanczos3 filter), and
/// re-encode as PNG.
///
/// If the image already fits within `max_dimension` on both sides, the
/// input `bytes` are returned unchanged, with no needless re-encode.
/// Undecodable input, or a resized image that cannot be encoded, fails with
/// [`PublishError::Image`].
pub fn downscale_image(bytes: &[u8], max_dimension: u32) -> (r: Result<Vec<u8>>)
    ensures
        decoded_size(bytes@) is None ==> r matches Err(PublishError::Image(_)),
        decoded_size(bytes@) matches Some((w, h)) && w <= max_dimension && h <= max_dimension ==> (r matches Ok(
            out,
        ) && out@ == bytes@),
        decoded_size(bytes@) matches Some((w, h)) && !(w <= max_dimension && h <= max_dimension) ==> (
            (r is Ok <==> downscaled_png(bytes@, max_dimension) is Some)
            && (r matches Ok(out) ==> downscaled_png(bytes@, max_dimension) == Some(out@))),
        r is Ok || r matches Err(PublishError::Image(_)),
{
    let (width, height) = match decode_size(bytes) {
        Ok(size) => size,
        Err(msg) => return Err(PublishError::Image(msg)),
    };
    if width <= max_dimension && height <= max_dimension {
        return Ok(copy_slice(bytes));
    }
    match resize_png(bytes, max_dimension) {
        Ok(out) => Ok(out),
        Err(msg) => Err(PublishError::Image(msg)),
    }
}

} // verus!
