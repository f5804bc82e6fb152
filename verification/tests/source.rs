use jxl_convert::color::ColorModel;
use jxl_convert::error::ConversionError;
use jxl_convert::source::{plan_encoding, prepare, Plan, RgbSamples, Samples, SourceRaster};

fn raster(width: u32, height: u32, channels: u8, samples: Samples) -> SourceRaster {
    SourceRaster { width, height, channels, samples }
}

fn png_of(image: image::DynamicImage) -> Vec<u8> {
    let mut out = std::io::Cursor::new(Vec::new());
    image.write_to(&mut out, image::ImageFormat::Png).unwrap();
    out.into_inner()
}

fn eight(plan: Plan) -> (u32, u32, Vec<u8>) {
    match plan {
        Plan::Encode(input) => match input.samples() {
            RgbSamples::Eight(v) => (input.width(), input.height(), v.clone()),
            RgbSamples::Sixteen(_) => panic!("16-bit samples"),
        },
        Plan::PassThrough => panic!("passed through"),
    }
}

fn sixteen(plan: Plan) -> (u32, u32, Vec<u16>) {
    match plan {
        Plan::Encode(input) => match input.samples() {
            RgbSamples::Sixteen(v) => (input.width(), input.height(), v.clone()),
            RgbSamples::Eight(_) => panic!("8-bit samples"),
        },
        Plan::PassThrough => panic!("passed through"),
    }
}

#[test]
fn rgb8_raster_is_encoded_as_it_is() {
    let data: Vec<u8> = (0..18).collect();
    let plan = plan_encoding(raster(3, 2, 3, Samples::Eight(data.clone()))).unwrap();
    assert_eq!(eight(plan), (3, 2, data));
}

#[test]
fn rgba8_raster_is_encoded_without_alpha() {
    let plan = plan_encoding(raster(2, 1, 4, Samples::Eight(vec![1, 2, 3, 77, 4, 5, 6, 0]))).unwrap();
    assert_eq!(eight(plan), (2, 1, vec![1, 2, 3, 4, 5, 6]));
}

#[test]
fn sixteen_bit_rasters_keep_their_depth() {
    let plan = plan_encoding(raster(1, 1, 3, Samples::Sixteen(vec![1, 40_000, 65_535]))).unwrap();
    assert_eq!(sixteen(plan), (1, 1, vec![1, 40_000, 65_535]));
    let plan = plan_encoding(raster(1, 2, 4, Samples::Sixteen(vec![1, 2, 3, 4, 5, 6, 7, 8]))).unwrap();
    assert_eq!(sixteen(plan), (1, 2, vec![1, 2, 3, 5, 6, 7]));
}

#[test]
fn unsupported_models_are_passed_through() {
    let cases = vec![
        raster(2, 2, 1, Samples::Eight(vec![0; 4])),
        raster(2, 2, 2, Samples::Eight(vec![0; 8])),
        raster(2, 2, 1, Samples::Sixteen(vec![0; 4])),
        raster(2, 2, 2, Samples::Sixteen(vec![0; 8])),
        raster(2, 2, 3, Samples::Other),
        raster(2, 2, 4, Samples::Other),
        raster(2, 2, 0, Samples::Eight(vec![])),
        raster(2, 2, 5, Samples::Eight(vec![0; 20])),
        // Unsupported comes first: the buffer is not looked at.
        raster(2, 2, 1, Samples::Eight(vec![0; 3])),
    ];
    for r in cases {
        assert!(matches!(plan_encoding(r), Ok(Plan::PassThrough)));
    }
}

#[test]
fn incomplete_supported_raster_counts_as_not_decoded() {
    let r = plan_encoding(raster(2, 2, 3, Samples::Eight(vec![0; 11])));
    assert_eq!(r.err(), Some(ConversionError::DecodeFailure));
    let r = plan_encoding(raster(2, 2, 4, Samples::Sixteen(vec![0; 17])));
    assert_eq!(r.err(), Some(ConversionError::DecodeFailure));
}

#[test]
fn raster_names_its_colour_model() {
    assert_eq!(raster(1, 1, 3, Samples::Eight(vec![0; 3])).color_model(), ColorModel::Rgb8);
    assert_eq!(raster(1, 1, 4, Samples::Sixteen(vec![0; 4])).color_model(), ColorModel::Rgba16);
    assert_eq!(raster(1, 1, 1, Samples::Eight(vec![0])).color_model(), ColorModel::Gray8);
    assert_eq!(raster(1, 1, 3, Samples::Other).color_model(), ColorModel::Other);
}

#[test]
fn png_bytes_are_decoded_and_planned() {
    let data: Vec<u8> = (0..5 * 4 * 3).map(|i| (i * 3) as u8).collect();
    let bytes = png_of(image::DynamicImage::ImageRgb8(image::RgbImage::from_raw(5, 4, data.clone()).unwrap()));
    assert_ne!(bytes, data);
    assert_eq!(eight(prepare(&bytes).unwrap()), (5, 4, data));
}

#[test]
fn rgba_png_loses_its_alpha_channel() {
    let data: Vec<u8> = vec![10, 20, 30, 0, 40, 50, 60, 128];
    let bytes = png_of(image::DynamicImage::ImageRgba8(image::RgbaImage::from_raw(2, 1, data).unwrap()));
    assert_eq!(eight(prepare(&bytes).unwrap()), (2, 1, vec![10, 20, 30, 40, 50, 60]));
}

#[test]
fn sixteen_bit_png_is_planned_at_sixteen_bits() {
    let data: Vec<u16> = vec![0, 256, 65_535, 1, 2, 3];
    let buffer = image::ImageBuffer::<image::Rgb<u16>, Vec<u16>>::from_raw(1, 2, data.clone()).unwrap();
    let bytes = png_of(image::DynamicImage::ImageRgb16(buffer));
    assert_eq!(sixteen(prepare(&bytes).unwrap()), (1, 2, data));
}

#[test]
fn gray_png_is_passed_through() {
    let bytes = png_of(image::DynamicImage::ImageLuma8(image::GrayImage::from_raw(2, 2, vec![1, 2, 3, 4]).unwrap()));
    assert!(matches!(prepare(&bytes), Ok(Plan::PassThrough)));
}

#[test]
fn bytes_that_are_no_image_do_not_decode() {
    assert_eq!(prepare(b"not an image").err(), Some(ConversionError::DecodeFailure));
    assert_eq!(prepare(&[]).err(), Some(ConversionError::DecodeFailure));
    // A PNG signature with nothing behind it.
    assert_eq!(prepare(&[0x89, b'P', b'N', b'G', 0x0D, 0x0A, 0x1A, 0x0A]).err(), Some(ConversionError::DecodeFailure));
}
