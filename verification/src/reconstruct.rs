//! From what a JPEG XL decoder hands back to an 8-bit RGB raster.

use vstd::prelude::*;
use crate::error::ConversionError;
use crate::ieee::{half_sample_to_byte, half_to_byte, single_sample_to_byte, single_to_byte};
use crate::layout::{
    broadcast_gray,
    drop_alpha,
    fills_image,
    rgb_layout,
    sample_count,
    supported_channels,
};

verus! {

/// The samples of a decoded image, row by row, the channels of a pixel side by
/// side, tagged by the kind of number each sample is.
#[derive(Debug)]
pub enum SampleBuffer {
    /// Unsigned 8-bit samples.
    Uint8(Vec<u8>),
    /// Unsigned 16-bit samples.
    Uint16(Vec<u16>),
    /// Single-precision samples, each as its bit pattern.
    Float32(Vec<u32>),
    /// Half-precision samples, each as its bit pattern.
    Float16(Vec<u16>),
}

/// An image as a decoder reports it.
#[derive(Debug)]
pub struct DecodedImage {
    pub width: u32,
    pub height: u32,
    /// Samples per pixel in `samples`: 1 (gray), 3 (RGB) or 4 (RGB and alpha).
    pub channels: u32,
    pub samples: SampleBuffer,
}

/// What an [`RgbRaster`] is: its size and `3 * width * height` samples.
pub struct RasterView {
    pub width: nat,
    pub height: nat,
    pub data: Seq<u8>,
}

/// An 8-bit RGB raster whose buffer holds exactly three samples per pixel.
#[derive(Debug)]
pub struct RgbRaster {
    width: u32,
    height: u32,
    data: Vec<u8>,
}

/// The 8-bit value that stands for a 16-bit sample: its high byte.
pub open spec fn narrow16(x: u16) -> u8 {
    (x / 256) as u8
}

impl SampleBuffer {
    /// Number of samples held.
    pub open spec fn count(&self) -> nat {
        match self {
            SampleBuffer::Uint8(v) => v@.len(),
            SampleBuffer::Uint16(v) => v@.len(),
            SampleBuffer::Float32(v) => v@.len(),
            SampleBuffer::Float16(v) => v@.len(),
        }
    }

    /// The samples as 8-bit values: 8-bit samples unchanged, 16-bit samples
    /// divided by 256, floating-point samples scaled by 255 and clamped.
    pub open spec fn normalized(&self) -> Seq<u8> {
        match self {
            SampleBuffer::Uint8(v) => v@,
            SampleBuffer::Uint16(v) => v@.map_values(|x: u16| narrow16(x)),
            SampleBuffer::Float32(v) => v@.map_values(|x: u32| single_to_byte(x)),
            SampleBuffer::Float16(v) => v@.map_values(|x: u16| half_to_byte(x)),
        }
    }

    pub fn len(&self) -> (n: usize)
        ensures
            n == self.count(),
    {
        match self {
            SampleBuffer::Uint8(v) => v.len(),
            SampleBuffer::Uint16(v) => v.len(),
            SampleBuffer::Float32(v) => v.len(),
            SampleBuffer::Float16(v) => v.len(),
        }
    }

    /// Brings every sample to 8 bits.
    pub fn normalize(self) -> (out: Vec<u8>)
        ensures
            out@ == self.normalized(),
    {
        match self {
            SampleBuffer::Uint8(v) => v,
            SampleBuffer::Uint16(v) => narrow_samples(v.as_slice()),
            SampleBuffer::Float32(v) => single_samples_to_bytes(v.as_slice()),
            SampleBuffer::Float16(v) => half_samples_to_bytes(v.as_slice()),
        }
    }
}

/// Brings one 16-bit sample down to 8 bits by integer division by 256.
pub fn narrow_sample(x: u16) -> (b: u8)
    ensures
        b == narrow16(x),
{
    (x / 256) as u8
}

/// Brings 16-bit samples down to 8 bits, one by one.
pub fn narrow_samples(data: &[u16]) -> (out: Vec<u8>)
    ensures
        out@ == data@.map_values(|x: u16| narrow16(x)),
{
    let n: usize = data.len();
    let mut out: Vec<u8> = Vec::new();
    let mut i: usize = 0;
    while i < n
        invariant
            n == data@.len(),
            i <= n,
            out@.len() == i,
            forall|j: int| 0 <= j < i ==> out@[j] == narrow16(data@[j]),
        decreases n - i,
    {
        out.push(narrow_sample(data[i]));
        i += 1;
    }
    assert(out@ =~= data@.map_values(|x: u16| narrow16(x)));
    out
}


/// Brings single-precision samples to 8 bits, one by one.
pub fn single_samples_to_bytes(data: &[u32]) -> (out: Vec<u8>)
    ensures
        out@ == data@.map_values(|x: u32| single_to_byte(x)),
{
    let n: usize = data.len();
    let mut out: Vec<u8> = Vec::new();
    let mut i: usize = 0;
    while i < n
        invariant
            n == data@.len(),
            i <= n,
            out@.len() == i,
            forall|j: int| 0 <= j < i ==> out@[j] == single_to_byte(data@[j]),
        decreases n - i,
    {
        out.push(single_sample_to_byte(data[i]));
        i += 1;
    }
    assert(out@ =~= data@.map_values(|x: u32| single_to_byte(x)));
    out
}

/// Brings half-precision samples to 8 bits, one by one.
pub fn half_samples_to_bytes(data: &[u16]) -> (out: Vec<u8>)
    ensures
        out@ == data@.map_values(|x: u16| half_to_byte(x)),
{
    let n: usize = data.len();
    let mut out: Vec<u8> = Vec::new();
    let mut i: usize = 0;
    while i < n
        invariant
            n == data@.len(),
            i <= n,
            out@.len() == i,
            forall|j: int| 0 <= j < i ==> out@[j] == half_to_byte(data@[j]),
        decreases n - i,
    {
        out.push(half_sample_to_byte(data[i]));
        i += 1;
    }
    assert(out@ =~= data@.map_values(|x: u16| half_to_byte(x)));
    out
}

impl View for RgbRaster {
    type V = RasterView;

    closed spec fn view(&self) -> RasterView {
        RasterView { width: self.width as nat, height: self.height as nat, data: self.data@ }
    }
}

impl RgbRaster {
    #[verifier::type_invariant]
    spec fn holds_every_pixel(self) -> bool {
        self.data@.len() == sample_count(self.width as nat, self.height as nat, 3)
    }

    /// Assembles a raster from a buffer of RGB samples. Only a buffer of
    /// exactly `3 * width * height` samples is taken.
    pub fn new(width: u32, height: u32, data: Vec<u8>) -> (r: Result<RgbRaster, ConversionError>)
        ensures
            match r {
                Ok(raster) => data@.len() == sample_count(width as nat, height as nat, 3)
                    && raster@ == (RasterView { width: width as nat, height: height as nat, data: data@ }),
                Err(e) => data@.len() != sample_count(width as nat, height as nat, 3)
                    && e == ConversionError::MalformedReconstructedBuffer,
            },
    {
        if fills_image(data.len(), width, height, 3) {
            Ok(RgbRaster { width, height, data })
        } else {
            Err(ConversionError::MalformedReconstructedBuffer)
        }
    }

    pub fn width(&self) -> (w: u32)
        ensures
            w == self@.width,
    {
        self.width
    }

    pub fn height(&self) -> (h: u32)
        ensures
            h == self@.height,
    {
        self.height
    }

    /// The samples, three per pixel, row by row.
    pub fn data(&self) -> (d: &Vec<u8>)
        ensures
            d@ == self@.data,
            d@.len() == sample_count(self@.width, self@.height, 3),
            self@.width <= u32::MAX,
            self@.height <= u32::MAX,
    {
        proof {
            use_type_invariant(self);
        }
        &self.data
    }

    pub fn into_data(self) -> (d: Vec<u8>)
        ensures
            d@ == self@.data,
    {
        self.data
    }
}

/// Samples per pixel in a buffer whose decoder counts the colour channels and
/// the alpha channel apart: one more than the colour channels where there is
/// alpha. A count that a `u32` cannot hold stays at the largest one, which no
/// reconstruction accepts.
pub open spec fn channels_with_alpha(color_channels: u32, has_alpha: bool) -> u32 {
    if !has_alpha {
        color_channels
    } else if color_channels == u32::MAX {
        u32::MAX
    } else {
        (color_channels + 1) as u32
    }
}

/// Counts the samples per pixel of a decoded buffer from what the decoder
/// reports of the image.
pub fn buffer_channels(color_channels: u32, has_alpha: bool) -> (channels: u32)
    ensures
        channels == channels_with_alpha(color_channels, has_alpha),
        color_channels + (if has_alpha { 1int } else { 0int }) <= u32::MAX ==> channels
            == color_channels + (if has_alpha { 1int } else { 0int }),
        color_channels + (if has_alpha { 1int } else { 0int }) > u32::MAX ==> channels == u32::MAX,
{
    if !has_alpha {
        color_channels
    } else if color_channels == u32::MAX {
        u32::MAX
    } else {
        color_channels + 1
    }
}

impl DecodedImage {
    /// What [`reconstruct`] makes of the image.
    ///
    /// The number of channels is looked at first, then the length of the
    /// buffer; an image that passes both becomes a raster of the same size.
    pub open spec fn reconstruction(&self) -> Result<RasterView, ConversionError> {
        if !supported_channels(self.channels as nat) {
            Err(ConversionError::UnsupportedColorModel)
        } else if self.samples.count() != sample_count(
            self.width as nat,
            self.height as nat,
            self.channels as nat,
        ) {
            Err(ConversionError::MalformedReconstructedBuffer)
        } else {
            Ok(
                RasterView {
                    width: self.width as nat,
                    height: self.height as nat,
                    data: rgb_layout(self.channels as nat, self.samples.normalized()),
                },
            )
        }
    }
}

/// Brings a decoded image to an 8-bit RGB raster of the same size.
pub fn reconstruct(image: DecodedImage) -> (r: Result<RgbRaster, ConversionError>)
    ensures
        match r {
            Ok(raster) => image.reconstruction() == Ok::<RasterView, ConversionError>(raster@),
            Err(e) => image.reconstruction() == Err::<RasterView, ConversionError>(e),
        },
{
    let DecodedImage { width, height, channels, samples } = image;
    if channels != 1 && channels != 3 && channels != 4 {
        return Err(ConversionError::UnsupportedColorModel);
    }
    if !fills_image(samples.len(), width, height, channels) {
        return Err(ConversionError::MalformedReconstructedBuffer);
    }
    let ghost flat_model = samples.normalized();
    let flat: Vec<u8> = samples.normalize();
    let rgb: Vec<u8> = if channels == 1 {
        broadcast_gray(flat.as_slice())
    } else if channels == 3 {
        proof {
            assert(flat@.len() % 3 == 0) by (nonlinear_arith)
                requires
                    flat@.len() == width * height * 3,
            ;
            crate::layout::lemma_rgb_layout_of_rgb(flat@);
        }
        flat
    } else {
        drop_alpha(flat.as_slice())
    };
    proof {
        crate::layout::lemma_rgb_layout_len(
            channels as nat,
            flat_model,
            (width * height) as nat,
        );
        assert(width * height * 3 == sample_count(width as nat, height as nat, 3));
    }
    Ok(RgbRaster { width, height, data: rgb })
}


/// A reconstructed raster has the size of the decoded image and three samples
/// for each of its pixels.
pub proof fn lemma_reconstruction_keeps_size(image: DecodedImage)
    requires
        image.reconstruction() is Ok,
    ensures
        image.reconstruction().unwrap().width == image.width,
        image.reconstruction().unwrap().height == image.height,
        image.reconstruction().unwrap().data.len() == sample_count(
            image.width as nat,
            image.height as nat,
            3,
        ),
{
    crate::layout::lemma_rgb_layout_len(
        image.channels as nat,
        image.samples.normalized(),
        (image.width * image.height) as nat,
    );
}

/// Of four channels the first three are kept as they are and the fourth is
/// left out: no sample of the raster depends on it.
pub proof fn lemma_alpha_discarded(image: DecodedImage, pixel: int, channel: int)
    requires
        image.channels == 4,
        image.samples.count() == sample_count(image.width as nat, image.height as nat, 4),
        0 <= pixel < image.width * image.height,
        0 <= channel < 3,
    ensures
        image.reconstruction() is Ok,
        image.reconstruction().unwrap().data[3 * pixel + channel] == image.samples.normalized()[4
            * pixel + channel],
{
    lemma_reconstruction_keeps_size(image);
    let data = image.samples.normalized();
    assert(data.len() / 4 == image.width * image.height);
    assert((3 * pixel + channel) / 3 == pixel);
    assert((3 * pixel + channel) % 3 == channel);
}

/// A single channel is repeated: red, green and blue of every pixel all hold
/// its intensity.
pub proof fn lemma_gray_broadcast(image: DecodedImage, pixel: int, channel: int)
    requires
        image.channels == 1,
        image.samples.count() == sample_count(image.width as nat, image.height as nat, 1),
        0 <= pixel < image.width * image.height,
        0 <= channel < 3,
    ensures
        image.reconstruction() is Ok,
        image.reconstruction().unwrap().data[3 * pixel + channel]
            == image.samples.normalized()[pixel],
{
    lemma_reconstruction_keeps_size(image);
    let data = image.samples.normalized();
    assert(data.len() / 1 == image.width * image.height);
    assert((3 * pixel + channel) / 3 == pixel);
}

/// Three channels stay as they are.
pub proof fn lemma_rgb_kept(image: DecodedImage)
    requires
        image.channels == 3,
        image.samples.count() == sample_count(image.width as nat, image.height as nat, 3),
    ensures
        image.reconstruction() is Ok,
        image.reconstruction().unwrap().data == image.samples.normalized(),
{
    let data = image.samples.normalized();
    assert(data.len() % 3 == 0) by (nonlinear_arith)
        requires
            data.len() == image.width * image.height * 3,
    ;
    crate::layout::lemma_rgb_layout_of_rgb(data);
}

/// A buffer of another length than `width * height * channels` is refused as
/// malformed, whatever it holds; so is no other.
pub proof fn lemma_malformed_buffer(image: DecodedImage)
    requires
        supported_channels(image.channels as nat),
    ensures
        image.reconstruction() == Err::<RasterView, ConversionError>(
            ConversionError::MalformedReconstructedBuffer,
        ) <==> image.samples.count() != sample_count(
            image.width as nat,
            image.height as nat,
            image.channels as nat,
        ),
{
}

} // verus!
