//! The decoded input raster and what the encoder is fed from it.

use vstd::prelude::*;
use crate::color::{ColorModel, PixelFormat};
use crate::error::ConversionError;
use crate::layout::{drop_alpha, fills_image, rgb_layout, sample_count};

verus! {

/// The samples of a decoded raster, row by row, the channels of a pixel side
/// by side.
#[derive(Debug)]
pub enum Samples {
    /// 8-bit integer samples.
    Eight(Vec<u8>),
    /// 16-bit integer samples.
    Sixteen(Vec<u16>),
    /// Samples of a kind that is never encoded; they are not held.
    Other,
}

/// An input image, decoded.
#[derive(Debug)]
pub struct SourceRaster {
    pub width: u32,
    pub height: u32,
    /// Samples per pixel.
    pub channels: u8,
    pub samples: Samples,
}

/// Three samples per pixel, at the bit depth the encoder is told.
#[derive(Debug)]
pub enum RgbSamples {
    Eight(Vec<u8>),
    Sixteen(Vec<u16>),
}

/// What an [`RgbSamples`] holds.
pub enum RgbSamplesView {
    Eight(Seq<u8>),
    Sixteen(Seq<u16>),
}

/// What an [`EncoderInput`] is.
pub struct EncoderInputView {
    pub width: nat,
    pub height: nat,
    pub samples: RgbSamplesView,
}

/// The encoder's input: a size and exactly `3 * width * height` samples, row
/// by row, red, green and blue of a pixel side by side.
#[derive(Debug)]
pub struct EncoderInput {
    width: u32,
    height: u32,
    samples: RgbSamples,
}

/// What is done with an input image.
#[derive(Debug)]
pub enum Plan {
    /// It is encoded from this input.
    Encode(EncoderInput),
    /// Its colour model is not supported: the file is copied as it is and the
    /// encoder is not run.
    PassThrough,
}

/// What a [`Plan`] is.
pub enum PlanView {
    Encode(EncoderInputView),
    PassThrough,
}

impl RgbSamplesView {
    pub open spec fn len(self) -> nat {
        match self {
            RgbSamplesView::Eight(s) => s.len(),
            RgbSamplesView::Sixteen(s) => s.len(),
        }
    }
}

impl View for RgbSamples {
    type V = RgbSamplesView;

    open spec fn view(&self) -> RgbSamplesView {
        match self {
            RgbSamples::Eight(v) => RgbSamplesView::Eight(v@),
            RgbSamples::Sixteen(v) => RgbSamplesView::Sixteen(v@),
        }
    }
}

impl View for EncoderInput {
    type V = EncoderInputView;

    closed spec fn view(&self) -> EncoderInputView {
        EncoderInputView {
            width: self.width as nat,
            height: self.height as nat,
            samples: self.samples@,
        }
    }
}

impl View for Plan {
    type V = PlanView;

    open spec fn view(&self) -> PlanView {
        match self {
            Plan::Encode(input) => PlanView::Encode(input@),
            Plan::PassThrough => PlanView::PassThrough,
        }
    }
}

impl Samples {
    /// Number of samples held.
    pub open spec fn count(&self) -> nat {
        match self {
            Samples::Eight(v) => v@.len(),
            Samples::Sixteen(v) => v@.len(),
            Samples::Other => 0,
        }
    }

    /// Bits per sample; 0 for [`Samples::Other`].
    pub open spec fn bits(&self) -> nat {
        match self {
            Samples::Eight(_) => 8,
            Samples::Sixteen(_) => 16,
            Samples::Other => 0,
        }
    }
}

impl EncoderInput {
    #[verifier::type_invariant]
    spec fn holds_every_pixel(self) -> bool {
        self.samples@.len() == sample_count(self.width as nat, self.height as nat, 3)
    }

    pub fn width(&self) -> (w: u32)
        ensures
            w == self@.width,
    {
        self.width
    }

    pub fn height(&self) -> (h: u32)
        ensures
            h == self@.height,
    {
        self.height
    }

    /// The samples, and that there are three for every pixel.
    pub fn samples(&self) -> (s: &RgbSamples)
        ensures
            s@ == self@.samples,
            s@.len() == sample_count(self@.width, self@.height, 3),
    {
        proof {
            use_type_invariant(self);
        }
        &self.samples
    }
}

impl SourceRaster {
    /// The raster's colour model.
    pub open spec fn model(&self) -> ColorModel {
        ColorModel::of(self.channels as nat, self.samples.bits())
    }

    /// Whether the buffer holds `width * height * channels` samples.
    pub open spec fn complete(&self) -> bool {
        self.samples.count() == sample_count(
            self.width as nat,
            self.height as nat,
            self.channels as nat,
        )
    }

    /// What [`plan_encoding`] makes of the raster.
    ///
    /// A raster of an unsupported model is passed through, whatever its
    /// buffer holds. A supported one whose buffer does not hold every sample
    /// counts as not decoded. Any other is encoded at its own size and bit
    /// depth, from its red, green and blue samples.
    pub open spec fn plan(&self) -> Result<PlanView, ConversionError> {
        if self.model().format() == PixelFormat::Unsupported {
            Ok(PlanView::PassThrough)
        } else if !self.complete() {
            Err(ConversionError::DecodeFailure)
        } else {
            Ok(
                PlanView::Encode(
                    EncoderInputView {
                        width: self.width as nat,
                        height: self.height as nat,
                        samples: match self.samples {
                            Samples::Eight(v) => RgbSamplesView::Eight(
                                rgb_layout(self.channels as nat, v@),
                            ),
                            Samples::Sixteen(v) => RgbSamplesView::Sixteen(
                                rgb_layout(self.channels as nat, v@),
                            ),
                            Samples::Other => RgbSamplesView::Eight(Seq::empty()),
                        },
                    },
                ),
            )
        }
    }

    /// Names the raster's colour model.
    pub fn color_model(&self) -> (model: ColorModel)
        ensures
            model == self.model(),
    {
        match &self.samples {
            Samples::Eight(_) => ColorModel::from_layout(self.channels, 8),
            Samples::Sixteen(_) => ColorModel::from_layout(self.channels, 16),
            Samples::Other => ColorModel::from_layout(self.channels, 0),
        }
    }
}

/// Brings whole pixels of three or four samples to three.
fn rgb_of<T: Copy>(channels: u8, data: Vec<T>) -> (out: Vec<T>)
    requires
        channels == 3 || channels == 4,
        data@.len() % (channels as nat) == 0,
    ensures
        out@ == rgb_layout(channels as nat, data@),
{
    if channels == 3 {
        proof {
            crate::layout::lemma_rgb_layout_of_rgb(data@);
        }
        data
    } else {
        drop_alpha(data.as_slice())
    }
}

/// Classifies a decoded raster and, where it is supported, lays its samples
/// out for the encoder.
pub fn plan_encoding(raster: SourceRaster) -> (r: Result<Plan, ConversionError>)
    ensures
        match r {
            Ok(plan) => raster.plan() == Ok::<PlanView, ConversionError>(plan@),
            Err(e) => raster.plan() == Err::<PlanView, ConversionError>(e),
        },
{
    let format: PixelFormat = raster.color_model().classify();
    let SourceRaster { width, height, channels, samples } = raster;
    match samples {
        Samples::Eight(v) => {
            if format != PixelFormat::Rgb8 {
                return Ok(Plan::PassThrough);
            }
            if !fills_image(v.len(), width, height, channels as u32) {
                return Err(ConversionError::DecodeFailure);
            }
            proof {
                lemma_whole_pixels(width as nat, height as nat, channels as nat, v@);
            }
            let rgb: Vec<u8> = rgb_of(channels, v);
            Ok(Plan::Encode(EncoderInput { width, height, samples: RgbSamples::Eight(rgb) }))
        },
        Samples::Sixteen(v) => {
            if format != PixelFormat::Rgb16 {
                return Ok(Plan::PassThrough);
            }
            if !fills_image(v.len(), width, height, channels as u32) {
                return Err(ConversionError::DecodeFailure);
            }
            proof {
                lemma_whole_pixels(width as nat, height as nat, channels as nat, v@);
            }
            let rgb: Vec<u16> = rgb_of(channels, v);
            Ok(Plan::Encode(EncoderInput { width, height, samples: RgbSamples::Sixteen(rgb) }))
        },
        Samples::Other => Ok(Plan::PassThrough),
    }
}

/// A buffer that fills an image holds whole pixels, and three samples of
/// each remain.
proof fn lemma_whole_pixels<T>(width: nat, height: nat, channels: nat, data: Seq<T>)
    requires
        channels > 0,
        data.len() == sample_count(width, height, channels),
    ensures
        data.len() % channels == 0,
        rgb_layout(channels, data).len() == sample_count(width, height, 3),
{
    assert(data.len() % channels == 0 && data.len() / channels == width * height)
        by (nonlinear_arith)
        requires
            channels > 0,
            data.len() == width * height * channels,
    ;
}


/// A raster that is encoded is encoded at its own size, from three samples
/// for each of its pixels.
pub proof fn lemma_plan_keeps_size(raster: SourceRaster)
    requires
        raster.plan() matches Ok(PlanView::Encode(_)),
    ensures
        raster.plan() matches Ok(PlanView::Encode(input)) && input.width == raster.width
            && input.height == raster.height && input.samples.len() == sample_count(
            raster.width as nat,
            raster.height as nat,
            3,
        ),
{
    match raster.samples {
        Samples::Eight(v) => {
            lemma_whole_pixels(
                raster.width as nat,
                raster.height as nat,
                raster.channels as nat,
                v@,
            );
        },
        Samples::Sixteen(v) => {
            lemma_whole_pixels(
                raster.width as nat,
                raster.height as nat,
                raster.channels as nat,
                v@,
            );
        },
        Samples::Other => {},
    }
}

/// Of a raster with an alpha channel the red, green and blue samples are
/// encoded as they are, and no encoded sample depends on the alpha channel.
pub proof fn lemma_plan_drops_alpha(raster: SourceRaster, pixel: int, channel: int)
    requires
        raster.channels == 4,
        raster.samples matches Samples::Eight(_),
        raster.complete(),
        0 <= pixel < raster.width * raster.height,
        0 <= channel < 3,
    ensures
        raster.plan() matches Ok(PlanView::Encode(input)) && input.samples matches RgbSamplesView::Eight(
            rgb,
        ) && raster.samples matches Samples::Eight(v) && rgb[3 * pixel + channel] == v@[4 * pixel
            + channel],
{
    lemma_plan_keeps_size(raster);
    assert((3 * pixel + channel) / 3 == pixel);
    assert((3 * pixel + channel) % 3 == channel);
}

/// Calls `image::load_from_memory`, which guesses the format from the first
/// bytes and decodes, and copies out of the `DynamicImage` its width, its
/// height, the channel count of its colour type and its sample buffer.
///
/// Trusted: that the call returns. Nothing is claimed of what it returns: the
/// crate consults decoders registered in the running program, so the same
/// bytes need not always give the same raster.
#[verifier::external_body]
fn decode_raster(bytes: &[u8]) -> (r: Result<SourceRaster, image::ImageError>) {
    let img = image::load_from_memory(bytes)?;
    let (width, height, channels) = (img.width(), img.height(), img.color().channel_count());
    let samples = if let Some(flat) = img.as_flat_samples_u8() {
        Samples::Eight(flat.samples.to_vec())
    } else if let Some(flat) = img.as_flat_samples_u16() {
        Samples::Sixteen(flat.samples.to_vec())
    } else {
        Samples::Other
    };
    Ok(SourceRaster { width, height, channels, samples })
}

/// Decodes the bytes of an input file and plans what is done with it.
///
/// Whether the bytes decode, and to which raster, is the decoder's matter;
/// whatever raster comes back is planned as [`plan_encoding`] says, and bytes
/// that do not decode give [`ConversionError::DecodeFailure`].
pub fn prepare(bytes: &[u8]) -> (r: Result<Plan, ConversionError>)
    ensures
        r matches Err(e) ==> e == ConversionError::DecodeFailure,
        r matches Ok(plan) ==> exists|raster: SourceRaster|
            raster.plan() == Ok::<PlanView, ConversionError>(plan@),
{
    match decode_raster(bytes) {
        Ok(raster) => {
            let ghost decoded = raster;
            let r = plan_encoding(raster);
            assert(r matches Ok(plan) ==> decoded.plan() == Ok::<PlanView, ConversionError>(plan@));
            r
        },
        Err(_) => Err(ConversionError::DecodeFailure),
    }
}

} // verus!
