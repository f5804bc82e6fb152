use jxl_convert::engine::{
    begin, begin_with, step, Action, ConversionOutcome, Event, InputFile, State, Status,
};
use jxl_convert::error::ConversionError;
use jxl_convert::params::{CompressionRequest, Quality, SpeedTier};
use jxl_convert::source::{plan_encoding, Plan, RgbSamples, Samples, SourceRaster};

fn request() -> CompressionRequest {
    CompressionRequest::new(Some(6), Some(Quality::from_bits(1.5f32.to_bits())), true)
}

fn file(stem: &str, extension: Option<&str>, bytes: Vec<u8>) -> InputFile {
    InputFile { stem: stem.to_string(), extension: extension.map(|e| e.to_string()), bytes }
}

fn png_of(image: image::DynamicImage) -> Vec<u8> {
    let mut out = std::io::Cursor::new(Vec::new());
    image.write_to(&mut out, image::ImageFormat::Png).unwrap();
    out.into_inner()
}

fn rgb_png(width: u32, height: u32) -> (Vec<u8>, Vec<u8>) {
    let data: Vec<u8> = (0..width * height * 3).map(|i| (i % 251) as u8).collect();
    let image = image::RgbImage::from_raw(width, height, data.clone()).unwrap();
    (png_of(image::DynamicImage::ImageRgb8(image)), data)
}

fn outcome_of(state: &State) -> ConversionOutcome {
    match state {
        State::Storing(outcome) | State::Done(outcome) => *outcome,
        State::Encoding(_) => panic!("still encoding"),
    }
}

fn stored(action: Action) -> (String, Vec<u8>) {
    match action {
        Action::Store(out) => (out.name, out.bytes),
        other => panic!("no file to store: {:?}", other),
    }
}

#[test]
fn supported_image_is_sent_to_the_encoder() {
    let (bytes, data) = rgb_png(100, 100);
    let (state, action) = begin(file("photo", Some("png"), bytes), request());
    assert!(matches!(state, State::Encoding(_)));
    match action {
        Action::Encode(config, input) => {
            assert_eq!(config.speed, SpeedTier::Wombat);
            assert!(!config.lossless);
            assert!(!config.uses_original_profile);
            assert_eq!(config.quality, Some(Quality::from_bits(1.5f32.to_bits())));
            assert_eq!(input.width(), 100);
            assert_eq!(input.height(), 100);
            assert!(matches!(input.samples(), RgbSamples::Eight(v) if *v == data));
        }
        other => panic!("encoder not asked: {:?}", other),
    }
}

#[test]
fn smaller_artifact_is_written_under_the_codec_extension() {
    let (bytes, _) = rgb_png(20, 20);
    let original = bytes.len() as u64;
    let (state, _) = begin(file("photo", Some("png"), bytes), request());
    let artifact = vec![0xAB; original as usize - 1];
    let (state, action) = step(state, Event::Encoded(Some(artifact.clone())));
    assert_eq!(
        outcome_of(&state),
        ConversionOutcome { status: Status::Written, original_size: original, final_size: original - 1 }
    );
    assert_eq!(stored(action), ("photo.jxl".to_string(), artifact));
    let (state, action) = step(state, Event::Stored(true));
    assert!(matches!(state, State::Done(o) if o.status == Status::Written && !o.skipped()));
    assert!(matches!(action, Action::Report(o) if o.final_size == original - 1));
}

#[test]
fn artifact_of_equal_size_falls_back_to_the_original() {
    let (bytes, _) = rgb_png(20, 20);
    let original = bytes.len() as u64;
    let (state, _) = begin(file("photo", Some("png"), bytes.clone()), request());
    let (state, action) = step(state, Event::Encoded(Some(vec![0; original as usize])));
    assert_eq!(
        outcome_of(&state),
        ConversionOutcome { status: Status::SkippedFallback, original_size: original, final_size: original }
    );
    assert_eq!(stored(action), ("photo.png".to_string(), bytes));
}

#[test]
fn larger_artifact_falls_back_to_the_original() {
    let (bytes, _) = rgb_png(20, 20);
    let original = bytes.len();
    let (state, _) = begin(file("scan", Some("jpeg"), bytes.clone()), request());
    let (state, action) = step(state, Event::Encoded(Some(vec![0; original * 2])));
    assert!(outcome_of(&state).skipped());
    assert_eq!(outcome_of(&state).final_size, original as u64);
    let (name, content) = stored(action);
    assert_eq!(name, "scan.jpeg");
    assert_eq!(content, bytes);
}

#[test]
fn fallback_copy_of_a_file_without_extension() {
    let (bytes, _) = rgb_png(4, 4);
    let (state, _) = begin(file("photo", None, bytes.clone()), request());
    let (_, action) = step(state, Event::Encoded(Some(vec![0; bytes.len() + 1])));
    assert_eq!(stored(action), ("photo.img".to_string(), bytes));
}

#[test]
fn unsupported_image_is_copied_and_the_encoder_not_run() {
    let bytes = png_of(image::DynamicImage::ImageLuma8(image::GrayImage::from_raw(3, 3, vec![9; 9]).unwrap()));
    let size = bytes.len() as u64;
    let (state, action) = begin(file("gray", Some("png"), bytes.clone()), request());
    assert_eq!(
        outcome_of(&state),
        ConversionOutcome { status: Status::SkippedFallback, original_size: size, final_size: size }
    );
    assert!(matches!(state, State::Storing(_)));
    assert_eq!(stored(action), ("gray.png".to_string(), bytes));
    let (state, action) = step(state, Event::Stored(true));
    assert!(matches!(state, State::Done(o) if o.status == Status::SkippedFallback));
    assert!(matches!(action, Action::Report(o) if o.skipped()));
}

#[test]
fn undecodable_file_fails_at_once() {
    let (state, action) = begin(file("junk", Some("png"), vec![1, 2, 3, 4, 5]), request());
    let expected = ConversionOutcome {
        status: Status::Failed(ConversionError::DecodeFailure),
        original_size: 5,
        final_size: 0,
    };
    assert!(matches!(state, State::Done(o) if o == expected));
    assert!(matches!(action, Action::Report(o) if o == expected));
}

#[test]
fn encoder_failure_fails_the_file() {
    let (bytes, _) = rgb_png(4, 4);
    let size = bytes.len() as u64;
    let (state, _) = begin(file("photo", Some("png"), bytes), request());
    let (state, action) = step(state, Event::Encoded(None));
    let expected = ConversionOutcome {
        status: Status::Failed(ConversionError::EncodeFailure),
        original_size: size,
        final_size: 0,
    };
    assert!(matches!(state, State::Done(o) if o == expected));
    assert!(matches!(action, Action::Report(o) if o == expected && o.skipped()));
}

#[test]
fn store_failure_fails_the_file() {
    let (bytes, _) = rgb_png(4, 4);
    let size = bytes.len() as u64;
    let (state, _) = begin(file("photo", Some("png"), bytes), request());
    let (state, _) = step(state, Event::Encoded(Some(vec![1])));
    let (state, action) = step(state, Event::Stored(false));
    let expected = ConversionOutcome {
        status: Status::Failed(ConversionError::WriteFailure),
        original_size: size,
        final_size: 0,
    };
    assert!(matches!(state, State::Done(o) if o == expected));
    assert!(matches!(action, Action::Report(o) if o == expected));
}

#[test]
fn events_out_of_turn_end_the_conversion() {
    let (bytes, _) = rgb_png(4, 4);
    let (state, _) = begin(file("photo", Some("png"), bytes.clone()), request());
    let (state, action) = step(state, Event::Stored(true));
    assert!(matches!(state, State::Done(o) if o.status == Status::Failed(ConversionError::EncodeFailure)));
    assert!(matches!(action, Action::Report(_)));

    let (state, _) = begin(file("photo", Some("png"), bytes), request());
    let (state, _) = step(state, Event::Encoded(Some(vec![1])));
    let (state, action) = step(state, Event::Encoded(Some(vec![1])));
    assert!(matches!(state, State::Done(o) if o.status == Status::Failed(ConversionError::WriteFailure)));
    assert!(matches!(action, Action::Report(_)));
}

#[test]
fn a_finished_conversion_stays_finished() {
    let done = ConversionOutcome { status: Status::Written, original_size: 10, final_size: 4 };
    let (state, action) = step(State::Done(done), Event::Encoded(Some(vec![1, 2, 3])));
    assert!(matches!(state, State::Done(o) if o == done));
    assert!(matches!(action, Action::Report(o) if o == done));
    let (state, action) = step(state, Event::Stored(false));
    assert!(matches!(state, State::Done(o) if o == done));
    assert!(matches!(action, Action::Report(o) if o == done));
}

#[test]
fn begin_with_follows_the_plan() {
    let input = file("a", Some("webp"), vec![7; 40]);
    let (state, action) = begin_with(input, request(), Ok(Plan::PassThrough));
    assert!(matches!(state, State::Storing(o) if o.status == Status::SkippedFallback && o.final_size == 40));
    assert_eq!(stored(action), ("a.webp".to_string(), vec![7; 40]));

    let input = file("a", Some("webp"), vec![7; 40]);
    let (state, action) = begin_with(input, request(), Err(ConversionError::DecodeFailure));
    assert!(matches!(state, State::Done(o) if o.status == Status::Failed(ConversionError::DecodeFailure)));
    assert!(matches!(action, Action::Report(o) if o.original_size == 40 && o.final_size == 0));

    let raster = SourceRaster { width: 1, height: 1, channels: 4, samples: Samples::Sixteen(vec![5, 6, 7, 8]) };
    let lossless = CompressionRequest::new(Some(10), None, false);
    let input = file("a", Some("webp"), vec![7; 40]);
    let (state, action) = begin_with(input, lossless, plan_encoding(raster));
    assert!(matches!(state, State::Encoding(f) if f.bytes == vec![7; 40]));
    match action {
        Action::Encode(config, input) => {
            assert_eq!(config.speed, SpeedTier::Glacier);
            assert!(config.lossless && config.uses_original_profile);
            assert_eq!(config.quality, None);
            assert!(matches!(input.samples(), RgbSamples::Sixteen(v) if *v == vec![5, 6, 7]));
        }
        other => panic!("encoder not asked: {:?}", other),
    }
}

#[test]
fn input_file_delivers_by_size() {
    let (out, outcome) = file("x", Some("png"), vec![1, 2, 3]).deliver(vec![9, 9]);
    assert_eq!((out.name.as_str(), out.bytes), ("x.jxl", vec![9, 9]));
    assert_eq!(outcome, ConversionOutcome { status: Status::Written, original_size: 3, final_size: 2 });
    let (out, outcome) = file("x", Some("png"), vec![1, 2, 3]).deliver(vec![9, 9, 9]);
    assert_eq!((out.name.as_str(), out.bytes), ("x.png", vec![1, 2, 3]));
    assert_eq!(outcome, ConversionOutcome { status: Status::SkippedFallback, original_size: 3, final_size: 3 });
    // An empty input can never be improved on.
    let (out, outcome) = file("x", None, vec![]).deliver(vec![]);
    assert_eq!((out.name.as_str(), out.bytes), ("x.img", vec![]));
    assert_eq!(outcome.status, Status::SkippedFallback);
    let out = file("x", Some("jpg"), vec![4, 5]).into_copy();
    assert_eq!((out.name.as_str(), out.bytes), ("x.jpg", vec![4, 5]));
}

#[test]
fn outcomes_are_built_with_their_sizes() {
    assert_eq!(
        ConversionOutcome::written(10, 20),
        ConversionOutcome { status: Status::Written, original_size: 10, final_size: 20 }
    );
    assert_eq!(
        ConversionOutcome::failed(ConversionError::OptimizeFailure, 10),
        ConversionOutcome { status: Status::Failed(ConversionError::OptimizeFailure), original_size: 10, final_size: 0 }
    );
}
