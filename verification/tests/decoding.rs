use jxl_convert::decoding::{decode_to_png, decoding_outcome};
use jxl_convert::engine::{ConversionOutcome, Status};
use jxl_convert::error::ConversionError;
use jxl_convert::reconstruct::{DecodedImage, SampleBuffer};
use jxl_convert::source::{prepare, Plan, RgbSamples};

fn pixels_of(png: &[u8]) -> (u32, u32, image::ColorType, Vec<u8>) {
    let image = image::load_from_memory_with_format(png, image::ImageFormat::Png).unwrap();
    (image.width(), image.height(), image.color(), image.to_rgb8().into_raw())
}

#[test]
fn rgb_image_becomes_a_png_of_the_same_pixels() {
    let data: Vec<u8> = (0..7 * 5 * 3).map(|i| (i * 11 % 256) as u8).collect();
    let image = DecodedImage { width: 7, height: 5, channels: 3, samples: SampleBuffer::Uint8(data.clone()) };
    let out = decode_to_png("holiday", image).unwrap();
    assert_eq!(out.name, "holiday.png");
    let (width, height, _, pixels) = pixels_of(&out.bytes);
    assert_eq!((width, height), (7, 5));
    assert_eq!(pixels, data);
}

#[test]
fn rgba_image_becomes_a_png_without_alpha() {
    let samples = vec![1, 2, 3, 0, 4, 5, 6, 99, 250, 251, 252, 255, 7, 8, 9, 1];
    let image = DecodedImage { width: 2, height: 2, channels: 4, samples: SampleBuffer::Uint8(samples) };
    let out = decode_to_png("a", image).unwrap();
    let (width, height, color, pixels) = pixels_of(&out.bytes);
    assert_eq!((width, height), (2, 2));
    assert!(!color.has_alpha());
    assert_eq!(pixels, vec![1, 2, 3, 4, 5, 6, 250, 251, 252, 7, 8, 9]);
}

#[test]
fn gray_image_becomes_a_png_of_equal_channels() {
    let image = DecodedImage { width: 3, height: 1, channels: 1, samples: SampleBuffer::Uint16(vec![0, 0x8000, 0xFFFF]) };
    let out = decode_to_png("g", image).unwrap();
    let (width, height, _, pixels) = pixels_of(&out.bytes);
    assert_eq!((width, height), (3, 1));
    assert_eq!(pixels, vec![0, 0, 0, 128, 128, 128, 255, 255, 255]);
}

#[test]
fn errors_of_the_reconstruction_come_through() {
    let image = DecodedImage { width: 2, height: 2, channels: 3, samples: SampleBuffer::Uint8(vec![0; 10]) };
    assert_eq!(decode_to_png("a", image).err(), Some(ConversionError::MalformedReconstructedBuffer));
    let image = DecodedImage { width: 2, height: 2, channels: 2, samples: SampleBuffer::Uint8(vec![0; 8]) };
    assert_eq!(decode_to_png("a", image).err(), Some(ConversionError::UnsupportedColorModel));
    let image = DecodedImage { width: 0, height: 0, channels: 3, samples: SampleBuffer::Uint8(vec![]) };
    assert_eq!(decode_to_png("a", image).err(), Some(ConversionError::WriteFailure));
}

#[test]
fn a_hundred_by_hundred_raster_keeps_its_size_both_ways() {
    // The codec itself is the caller's: here its part is played by handing
    // the encoder's input over as the decoder's output.
    let data: Vec<u8> = (0..100 * 100 * 3).map(|i| (i % 253) as u8).collect();
    let source = image::RgbImage::from_raw(100, 100, data.clone()).unwrap();
    let mut file = std::io::Cursor::new(Vec::new());
    image::DynamicImage::ImageRgb8(source).write_to(&mut file, image::ImageFormat::Png).unwrap();
    let input = match prepare(&file.into_inner()).unwrap() {
        Plan::Encode(input) => input,
        Plan::PassThrough => panic!("passed through"),
    };
    assert_eq!((input.width(), input.height()), (100, 100));
    let samples = match input.samples() {
        RgbSamples::Eight(v) => v.clone(),
        RgbSamples::Sixteen(_) => panic!("16-bit samples"),
    };
    assert_eq!(samples.len(), 100 * 100 * 3);
    let decoded = DecodedImage { width: input.width(), height: input.height(), channels: 3, samples: SampleBuffer::Uint8(samples) };
    let out = decode_to_png("round", decoded).unwrap();
    let (width, height, color, pixels) = pixels_of(&out.bytes);
    assert_eq!((width, height), (100, 100));
    assert_eq!(color.channel_count(), 3);
    assert_eq!(pixels, data);
}

#[test]
fn decoding_outcomes() {
    assert_eq!(
        decoding_outcome(100, Ok(400), true),
        ConversionOutcome { status: Status::Written, original_size: 100, final_size: 400 }
    );
    assert_eq!(
        decoding_outcome(100, Ok(400), false),
        ConversionOutcome { status: Status::Failed(ConversionError::WriteFailure), original_size: 100, final_size: 0 }
    );
    assert_eq!(
        decoding_outcome(100, Err(ConversionError::DecodeFailure), false),
        ConversionOutcome { status: Status::Failed(ConversionError::DecodeFailure), original_size: 100, final_size: 0 }
    );
    assert!(decoding_outcome(1, Err(ConversionError::UnsupportedColorModel), true).skipped());
}
