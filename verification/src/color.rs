//! Which pixel representation a decoded raster is fed to the encoder in.

use vstd::prelude::*;

verus! {

/// Channel layout and sample type of a decoded raster.
#[derive(Clone, Copy, Debug, PartialEq, Eq, Structural)]
pub enum ColorModel {
    Gray8,
    GrayAlpha8,
    Rgb8,
    Rgba8,
    Gray16,
    GrayAlpha16,
    Rgb16,
    Rgba16,
    /// Floating-point samples, or anything else.
    Other,
}

/// What the encoder is fed.
#[derive(Clone, Copy, Debug, PartialEq, Eq, Structural)]
pub enum PixelFormat {
    /// Three 8-bit samples per pixel.
    Rgb8,
    /// Three 16-bit samples per pixel.
    Rgb16,
    /// Nothing: the file is passed through unchanged.
    Unsupported,
}

impl ColorModel {
    /// RGB with or without alpha is fed at its own bit depth, the alpha
    /// channel left out; every other model is unsupported.
    pub open spec fn format(self) -> PixelFormat {
        match self {
            ColorModel::Rgb8 | ColorModel::Rgba8 => PixelFormat::Rgb8,
            ColorModel::Rgb16 | ColorModel::Rgba16 => PixelFormat::Rgb16,
            _ => PixelFormat::Unsupported,
        }
    }

    /// Samples per pixel; 0 for [`ColorModel::Other`].
    pub open spec fn channels(self) -> nat {
        match self {
            ColorModel::Gray8 | ColorModel::Gray16 => 1,
            ColorModel::GrayAlpha8 | ColorModel::GrayAlpha16 => 2,
            ColorModel::Rgb8 | ColorModel::Rgb16 => 3,
            ColorModel::Rgba8 | ColorModel::Rgba16 => 4,
            ColorModel::Other => 0,
        }
    }

    /// The model of `channels` samples per pixel of `bits` bits each.
    pub open spec fn of(channels: nat, bits: nat) -> ColorModel {
        if bits == 8 {
            if channels == 1 {
                ColorModel::Gray8
            } else if channels == 2 {
                ColorModel::GrayAlpha8
            } else if channels == 3 {
                ColorModel::Rgb8
            } else if channels == 4 {
                ColorModel::Rgba8
            } else {
                ColorModel::Other
            }
        } else if bits == 16 {
            if channels == 1 {
                ColorModel::Gray16
            } else if channels == 2 {
                ColorModel::GrayAlpha16
            } else if channels == 3 {
                ColorModel::Rgb16
            } else if channels == 4 {
                ColorModel::Rgba16
            } else {
                ColorModel::Other
            }
        } else {
            ColorModel::Other
        }
    }

    /// Names the model of `channels` integer samples per pixel of `bits` bits
    /// each.
    pub fn from_layout(channels: u8, bits: u8) -> (model: ColorModel)
        ensures
            model == ColorModel::of(channels as nat, bits as nat),
    {
        if bits == 8 {
            match channels {
                1 => ColorModel::Gray8,
                2 => ColorModel::GrayAlpha8,
                3 => ColorModel::Rgb8,
                4 => ColorModel::Rgba8,
                _ => ColorModel::Other,
            }
        } else if bits == 16 {
            match channels {
                1 => ColorModel::Gray16,
                2 => ColorModel::GrayAlpha16,
                3 => ColorModel::Rgb16,
                4 => ColorModel::Rgba16,
                _ => ColorModel::Other,
            }
        } else {
            ColorModel::Other
        }
    }

    /// Decides what the encoder is fed for a raster of this model. Every
    /// model has an answer; none is an error.
    pub fn classify(self) -> (format: PixelFormat)
        ensures
            format == self.format(),
    {
        match self {
            ColorModel::Rgb8 | ColorModel::Rgba8 => PixelFormat::Rgb8,
            ColorModel::Rgb16 | ColorModel::Rgba16 => PixelFormat::Rgb16,
            _ => PixelFormat::Unsupported,
        }
    }
}

/// A supported model has three or four channels.
pub proof fn lemma_supported_models(model: ColorModel)
    ensures
        model.format() != PixelFormat::Unsupported <==> (model == ColorModel::Rgb8 || model
            == ColorModel::Rgba8 || model == ColorModel::Rgb16 || model == ColorModel::Rgba16),
        model.format() != PixelFormat::Unsupported ==> model.channels() == 3 || model.channels()
            == 4,
{
}

} // verus!
