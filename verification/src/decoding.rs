//! The way back: from a decoded JPEG XL image to the PNG file to store.

use vstd::prelude::*;
use crate::engine::{ConversionOutcome, OutputFile, OutputFileView};
use crate::error::ConversionError;
use crate::naming::{file_name, raster_extension, raster_name};
use crate::png::{render_png, rendered};
use crate::layout::sample_count;
use crate::reconstruct::{lemma_reconstruction_keeps_size, reconstruct, DecodedImage};
use crate::source::{lemma_plan_keeps_size, PlanView, SourceRaster};

verus! {

impl DecodedImage {
    /// The file that [`decode_to_png`] makes of the image for an input of
    /// the given stem: the image is reconstructed, the raster rendered, and
    /// the result named after the stem.
    pub open spec fn png_file(&self, stem: Seq<char>) -> Result<OutputFileView, ConversionError> {
        match self.reconstruction() {
            Err(e) => Err(e),
            Ok(raster) => match rendered(raster.width, raster.height, raster.data) {
                Err(e) => Err(e),
                Ok(bytes) => Ok(
                    OutputFileView { name: file_name(stem, raster_extension()), bytes },
                ),
            },
        }
    }
}

/// Turns a decoded image into the PNG file to store for it.
///
/// An image with 1, 3 or 4 channels and a buffer of the right length always
/// gives a file unless the PNG encoder fails; a failure of the re-optimizer
/// does not lose it.
pub fn decode_to_png(stem: &str, image: DecodedImage) -> (r: Result<OutputFile, ConversionError>)
    ensures
        match r {
            Ok(out) => image.png_file(stem@) == Ok::<OutputFileView, ConversionError>(out@),
            Err(e) => image.png_file(stem@) == Err::<OutputFileView, ConversionError>(e),
        },
{
    let raster = match reconstruct(image) {
        Ok(raster) => raster,
        Err(e) => {
            return Err(e);
        },
    };
    let bytes: Vec<u8> = match render_png(&raster) {
        Ok(bytes) => bytes,
        Err(e) => {
            return Err(e);
        },
    };
    Ok(OutputFile { name: raster_name(stem), bytes })
}

/// The outcome of decoding one file: written with the size of the PNG file
/// where it was made and stored, failed where it was not.
pub fn decoding_outcome(
    original_size: u64,
    file_size: Result<u64, ConversionError>,
    stored: bool,
) -> (outcome: ConversionOutcome)
    ensures
        outcome == match file_size {
            Err(e) => ConversionOutcome::failure(e, original_size),
            Ok(size) => if stored {
                (ConversionOutcome {
                    status: crate::engine::Status::Written,
                    original_size,
                    final_size: size,
                })
            } else {
                ConversionOutcome::failure(ConversionError::WriteFailure, original_size)
            },
        },
        outcome.consistent(),
{
    match file_size {
        Err(e) => ConversionOutcome::failed(e, original_size),
        Ok(size) => if stored {
            ConversionOutcome::written(original_size, size)
        } else {
            ConversionOutcome::failed(ConversionError::WriteFailure, original_size)
        },
    }
}


/// Encoding and then decoding keeps an image's size: where the decoder
/// reports the width and height that the encoder was given, the raster
/// reconstructed from what it hands back has the size of the raster that
/// was encoded.
pub proof fn lemma_round_trip_keeps_size(raster: SourceRaster, decoded: DecodedImage)
    requires
        raster.plan() matches Ok(PlanView::Encode(input)) && decoded.width == input.width
            && decoded.height == input.height,
        decoded.reconstruction() is Ok,
    ensures
        decoded.reconstruction().unwrap().width == raster.width,
        decoded.reconstruction().unwrap().height == raster.height,
        decoded.reconstruction().unwrap().data.len() == sample_count(
            raster.width as nat,
            raster.height as nat,
            3,
        ),
{
    lemma_plan_keeps_size(raster);
    lemma_reconstruction_keeps_size(decoded);
}

} // verus!
