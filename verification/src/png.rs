//! From an RGB raster to the bytes of the final PNG file.

use vstd::prelude::*;
use image::ImageEncoder;
use crate::error::ConversionError;
use crate::layout::sample_count;
use crate::reconstruct::RgbRaster;

verus! {

/// Preset handed to the re-optimizer: its highest.
pub const OPTIMIZER_PRESET: u8 = 6;

/// `image::ImageError`, carried from the `image` crate's calls to where it is
/// mapped to an error of this crate.
#[verifier::external_type_specification]
#[verifier::external_body]
pub struct ExImageError(image::ImageError);

/// `oxipng::PngError`, carried from the optimizer to where its failure is
/// recovered from.
#[verifier::external_type_specification]
#[verifier::external_body]
pub struct ExPngError(oxipng::PngError);

/// The PNG file that the `image` crate's encoder writes for an 8-bit RGB
/// raster, or `None` where it reports an error.
pub uninterp spec fn png_encoding(width: nat, height: nat, rgb: Seq<u8>) -> Option<Seq<u8>>;

/// What `oxipng` makes of a PNG file at a preset, or `None` where it reports
/// an error.
pub uninterp spec fn png_optimized(png: Seq<u8>, preset: u8) -> Option<Seq<u8>>;

/// Calls `image::codecs::png::PngEncoder::write_image` with the colour type
/// `Rgb8` on an encoder that writes into memory.
///
/// Trusted: the bytes written are a function of the size and the samples
/// alone. The encoder stops the program on a buffer of another length than
/// `3 * width * height`, so that length is asked for.
#[verifier::external_body]
fn encode_png(width: u32, height: u32, rgb: &[u8]) -> (r: Result<Vec<u8>, image::ImageError>)
    requires
        rgb@.len() == sample_count(width as nat, height as nat, 3),
    ensures
        match r {
            Ok(png) => png_encoding(width as nat, height as nat, rgb@) == Some(png@),
            Err(_) => png_encoding(width as nat, height as nat, rgb@) is None,
        },
{
    let mut out: Vec<u8> = Vec::new();
    image::codecs::png::PngEncoder::new(&mut out).write_image(
        rgb,
        width,
        height,
        image::ExtendedColorType::Rgb8,
    )?;
    Ok(out)
}

/// Calls `oxipng::optimize_from_memory` with `oxipng::Options::from_preset`.
///
/// Trusted: the result is a function of the file and the preset alone, and it
/// is never longer than the file handed in: where the optimizer finds nothing
/// shorter it gives the input back. The optimizer reads some chunks without
/// looking at their length first and stops the program on a file that was
/// made to mislead it, so only a file that the encoder above wrote is taken.
#[verifier::external_body]
fn optimize_png(png: &[u8], preset: u8) -> (r: Result<Vec<u8>, oxipng::PngError>)
    requires
        exists|width: nat, height: nat, rgb: Seq<u8>|
            png_encoding(width, height, rgb) == Some(png@),
    ensures
        match r {
            Ok(out) => png_optimized(png@, preset) == Some(out@) && out@.len() <= png@.len(),
            Err(_) => png_optimized(png@, preset) is None,
        },
{
    oxipng::optimize_from_memory(png, &oxipng::Options::from_preset(preset))
}

/// The bytes that become the final file: the optimizer's where it succeeded,
/// else the intermediate file as it is.
pub open spec fn final_png(intermediate: Seq<u8>, optimized: Option<Seq<u8>>) -> Seq<u8> {
    match optimized {
        Some(o) => o,
        None => intermediate,
    }
}

/// Chooses the final file once the optimizer has run: a failed optimization
/// loses nothing, the intermediate file is delivered in its place.
pub fn settle_png(intermediate: Vec<u8>, optimized: Option<Vec<u8>>) -> (out: Vec<u8>)
    ensures
        out@ == final_png(
            intermediate@,
            match optimized {
                Some(o) => Some(o@),
                None => None,
            },
        ),
{
    match optimized {
        Some(o) => o,
        None => intermediate,
    }
}

/// What [`render_png`] returns for a raster.
pub open spec fn rendered(width: nat, height: nat, rgb: Seq<u8>) -> Result<Seq<u8>, ConversionError> {
    match png_encoding(width, height, rgb) {
        None => Err(ConversionError::WriteFailure),
        Some(png) => Ok(final_png(png, png_optimized(png, OPTIMIZER_PRESET))),
    }
}

/// Encodes a raster as PNG and re-optimizes the file without loss.
///
/// Fails only where the PNG encoder does. The result is never longer than
/// the file the encoder wrote.
pub fn render_png(raster: &RgbRaster) -> (r: Result<Vec<u8>, ConversionError>)
    ensures
        match r {
            Ok(out) => rendered(raster@.width, raster@.height, raster@.data) == Ok::<
                Seq<u8>,
                ConversionError,
            >(out@),
            Err(e) => rendered(raster@.width, raster@.height, raster@.data) == Err::<
                Seq<u8>,
                ConversionError,
            >(e),
        },
        r matches Ok(out) ==> png_encoding(raster@.width, raster@.height, raster@.data) matches Some(
            png,
        ) && out@.len() <= png.len(),
{
    let width: u32 = raster.width();
    let height: u32 = raster.height();
    let data: &Vec<u8> = raster.data();
    let intermediate: Vec<u8> = match encode_png(width, height, data.as_slice()) {
        Ok(png) => png,
        Err(_) => {
            return Err(ConversionError::WriteFailure);
        },
    };
    let optimized: Option<Vec<u8>> = match optimize_png(intermediate.as_slice(), OPTIMIZER_PRESET) {
        Ok(o) => Some(o),
        Err(_) => None,
    };
    Ok(settle_png(intermediate, optimized))
}

} // verus!
