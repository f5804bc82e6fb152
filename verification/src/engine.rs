//! The compression of one input file, as a state machine.
//!
//! The machine decides; its caller does the outside work. It is started with
//! the input file, answers every event with the next thing to do, and ends
//! with the outcome to report. A file that is stored is never larger than the
//! input: where the encoder's artifact is not smaller, the input itself is
//! delivered.

use vstd::prelude::*;
use crate::error::ConversionError;
use crate::naming::{artifact_extension, artifact_name, copy_extension, copy_name, file_name};
use crate::params::{CompressionRequest, EncoderConfig};
use crate::color::PixelFormat;
use crate::source::{prepare, EncoderInput, EncoderInputView, Plan, PlanView, SourceRaster};

verus! {

/// An input file: its name, taken apart, and its content.
#[derive(Debug)]
pub struct InputFile {
    /// The file's name without its extension.
    pub stem: String,
    /// The extension, where the name has one.
    pub extension: Option<String>,
    pub bytes: Vec<u8>,
}

/// A file to store in the output directory.
#[derive(Debug)]
pub struct OutputFile {
    pub name: String,
    pub bytes: Vec<u8>,
}

/// How the conversion of a file ended.
#[derive(Clone, Copy, Debug, PartialEq, Eq, Structural)]
pub enum Status {
    /// The encoded artifact was stored.
    Written,
    /// The input was stored unchanged.
    SkippedFallback,
    /// Nothing was stored.
    Failed(ConversionError),
}

/// The result of one file's conversion.
#[derive(Clone, Copy, Debug, PartialEq, Eq, Structural)]
pub struct ConversionOutcome {
    pub status: Status,
    /// Size of the input, in bytes.
    pub original_size: u64,
    /// Size of the file that was stored, in bytes; 0 where none was.
    pub final_size: u64,
}

/// Where a conversion stands.
#[derive(Debug)]
pub enum State {
    /// The encoder has been asked for an artifact.
    Encoding(InputFile),
    /// The caller has been asked to store a file; the outcome is the one to
    /// report once it is stored.
    Storing(ConversionOutcome),
    /// The conversion is over.
    Done(ConversionOutcome),
}

/// What the caller reports back.
#[derive(Debug)]
pub enum Event {
    /// The encoder has run: its artifact, or `None` where it failed.
    Encoded(Option<Vec<u8>>),
    /// The file has been stored, or could not be.
    Stored(bool),
}

/// What the caller is to do next.
#[derive(Debug)]
pub enum Action {
    /// Run the encoder with this configuration on this input.
    Encode(EncoderConfig, EncoderInput),
    /// Store this file in the output directory.
    Store(OutputFile),
    /// Nothing more: report this outcome.
    Report(ConversionOutcome),
}

pub struct InputFileView {
    pub stem: Seq<char>,
    pub extension: Option<Seq<char>>,
    pub bytes: Seq<u8>,
}

pub struct OutputFileView {
    pub name: Seq<char>,
    pub bytes: Seq<u8>,
}

pub enum StateView {
    Encoding(InputFileView),
    Storing(ConversionOutcome),
    Done(ConversionOutcome),
}

pub enum EventView {
    Encoded(Option<Seq<u8>>),
    Stored(bool),
}

pub enum ActionView {
    Encode(EncoderConfig, EncoderInputView),
    Store(OutputFileView),
    Report(ConversionOutcome),
}

impl View for InputFile {
    type V = InputFileView;

    open spec fn view(&self) -> InputFileView {
        InputFileView {
            stem: self.stem@,
            extension: match self.extension {
                Some(e) => Some(e@),
                None => None,
            },
            bytes: self.bytes@,
        }
    }
}

impl View for OutputFile {
    type V = OutputFileView;

    open spec fn view(&self) -> OutputFileView {
        OutputFileView { name: self.name@, bytes: self.bytes@ }
    }
}

impl View for State {
    type V = StateView;

    open spec fn view(&self) -> StateView {
        match self {
            State::Encoding(file) => StateView::Encoding(file@),
            State::Storing(outcome) => StateView::Storing(*outcome),
            State::Done(outcome) => StateView::Done(*outcome),
        }
    }
}

impl View for Event {
    type V = EventView;

    open spec fn view(&self) -> EventView {
        match self {
            Event::Encoded(Some(artifact)) => EventView::Encoded(Some(artifact@)),
            Event::Encoded(None) => EventView::Encoded(None),
            Event::Stored(ok) => EventView::Stored(*ok),
        }
    }
}

impl View for Action {
    type V = ActionView;

    open spec fn view(&self) -> ActionView {
        match self {
            Action::Encode(config, input) => ActionView::Encode(*config, input@),
            Action::Store(file) => ActionView::Store(file@),
            Action::Report(outcome) => ActionView::Report(*outcome),
        }
    }
}

impl ConversionOutcome {
    /// The final size is that of the file that was stored: a copy is as
    /// large as the input, and a failure stored nothing.
    pub open spec fn consistent(self) -> bool {
        match self.status {
            Status::Written => true,
            Status::SkippedFallback => self.final_size == self.original_size,
            Status::Failed(_) => self.final_size == 0,
        }
    }

    /// What compression promises on top: a written artifact is smaller than
    /// the input.
    pub open spec fn no_regression(self) -> bool {
        self.status == Status::Written ==> self.final_size < self.original_size
    }

    /// The outcome of a conversion whose result was stored.
    pub fn written(original_size: u64, final_size: u64) -> (outcome: ConversionOutcome)
        ensures
            outcome == (ConversionOutcome { status: Status::Written, original_size, final_size }),
            outcome.consistent(),
    {
        ConversionOutcome { status: Status::Written, original_size, final_size }
    }

    /// The outcome of a conversion that stored nothing.
    pub fn failed(error: ConversionError, original_size: u64) -> (outcome: ConversionOutcome)
        ensures
            outcome == ConversionOutcome::failure(error, original_size),
            outcome.consistent(),
    {
        ConversionOutcome { status: Status::Failed(error), original_size, final_size: 0 }
    }

    /// The outcome of a conversion that stored nothing.
    pub open spec fn failure(error: ConversionError, original_size: u64) -> ConversionOutcome {
        ConversionOutcome { status: Status::Failed(error), original_size, final_size: 0 }
    }

    /// Whether the file was passed over: copied unchanged, or not converted
    /// at all.
    pub fn skipped(&self) -> (b: bool)
        ensures
            b == (self.status != Status::Written),
    {
        match self.status {
            Status::Written => false,
            _ => true,
        }
    }
}

impl InputFileView {
    /// The input's size in bytes.
    pub open spec fn size(self) -> u64 {
        self.bytes.len() as u64
    }

    /// The input as it is stored when it is copied: under its own stem and
    /// extension, with its own bytes.
    pub open spec fn copy(self) -> OutputFileView {
        OutputFileView {
            name: file_name(self.stem, copy_extension(self.extension)),
            bytes: self.bytes,
        }
    }

    /// An encoded artifact as it is stored: under the input's stem and the
    /// codec's extension.
    pub open spec fn encoded(self, artifact: Seq<u8>) -> OutputFileView {
        OutputFileView { name: file_name(self.stem, artifact_extension()), bytes: artifact }
    }

    /// The file to store once the encoder has succeeded, and the outcome that
    /// goes with it: the artifact where it is smaller than the input, else
    /// the input.
    pub open spec fn delivery(self, artifact: Seq<u8>) -> (OutputFileView, ConversionOutcome) {
        if artifact.len() < self.bytes.len() {
            (
                self.encoded(artifact),
                ConversionOutcome {
                    status: Status::Written,
                    original_size: self.size(),
                    final_size: artifact.len() as u64,
                },
            )
        } else {
            (
                self.copy(),
                ConversionOutcome {
                    status: Status::SkippedFallback,
                    original_size: self.size(),
                    final_size: self.size(),
                },
            )
        }
    }

    /// The first state and action, given what the input was planned to.
    pub open spec fn first(
        self,
        config: EncoderConfig,
        plan: Result<PlanView, ConversionError>,
    ) -> (StateView, ActionView) {
        match plan {
            Err(e) => {
                let outcome = ConversionOutcome::failure(e, self.size());
                (StateView::Done(outcome), ActionView::Report(outcome))
            },
            Ok(PlanView::PassThrough) => (
                StateView::Storing(
                    ConversionOutcome {
                        status: Status::SkippedFallback,
                        original_size: self.size(),
                        final_size: self.size(),
                    },
                ),
                ActionView::Store(self.copy()),
            ),
            Ok(PlanView::Encode(input)) => (StateView::Encoding(self), ActionView::Encode(
                config,
                input,
            )),
        }
    }
}

impl StateView {
    /// The state and action that follow an event.
    ///
    /// An event that the state does not wait for ends the conversion as
    /// failed at the step that was pending; after the end every event is
    /// answered with the outcome.
    pub open spec fn next(self, event: EventView) -> (StateView, ActionView) {
        match self {
            StateView::Encoding(file) => match event {
                EventView::Encoded(Some(artifact)) => {
                    let (out, outcome) = file.delivery(artifact);
                    (StateView::Storing(outcome), ActionView::Store(out))
                },
                _ => {
                    let outcome = ConversionOutcome::failure(
                        ConversionError::EncodeFailure,
                        file.size(),
                    );
                    (StateView::Done(outcome), ActionView::Report(outcome))
                },
            },
            StateView::Storing(outcome) => match event {
                EventView::Stored(true) => (StateView::Done(outcome), ActionView::Report(outcome)),
                _ => {
                    let failed = ConversionOutcome::failure(
                        ConversionError::WriteFailure,
                        outcome.original_size,
                    );
                    (StateView::Done(failed), ActionView::Report(failed))
                },
            },
            StateView::Done(outcome) => (StateView::Done(outcome), ActionView::Report(outcome)),
        }
    }

    /// What holds of every state that a conversion reaches.
    pub open spec fn valid(self) -> bool {
        match self {
            StateView::Encoding(file) => file.bytes.len() <= u64::MAX,
            StateView::Storing(outcome) => outcome.consistent() && outcome.no_regression() && !(
            outcome.status is Failed),
            StateView::Done(outcome) => outcome.consistent() && outcome.no_regression(),
        }
    }
}

impl InputFile {
    /// The input as the file to store when it is copied unchanged.
    pub fn into_copy(self) -> (out: OutputFile)
        ensures
            out@ == self@.copy(),
    {
        let InputFile { stem, extension, bytes } = self;
        let name: String = match &extension {
            Some(e) => copy_name(stem.as_str(), Some(e.as_str())),
            None => copy_name(stem.as_str(), None),
        };
        OutputFile { name, bytes }
    }

    /// Compares the artifact with the input and chooses the file to store.
    pub fn deliver(self, artifact: Vec<u8>) -> (r: (OutputFile, ConversionOutcome))
        ensures
            (r.0@, r.1) == self@.delivery(artifact@),
    {
        let original_size: u64 = self.bytes.len() as u64;
        if artifact.len() < self.bytes.len() {
            let final_size: u64 = artifact.len() as u64;
            let name: String = artifact_name(self.stem.as_str());
            (
                OutputFile { name, bytes: artifact },
                ConversionOutcome { status: Status::Written, original_size, final_size },
            )
        } else {
            (
                self.into_copy(),
                ConversionOutcome {
                    status: Status::SkippedFallback,
                    original_size,
                    final_size: original_size,
                },
            )
        }
    }
}

/// A planning result, its plan taken by its view.
pub open spec fn planned(plan: Result<Plan, ConversionError>) -> Result<PlanView, ConversionError> {
    match plan {
        Ok(p) => Ok(p@),
        Err(e) => Err(e),
    }
}

/// Starts the conversion of a file whose plan is known.
pub fn begin_with(file: InputFile, request: CompressionRequest, plan: Result<
    Plan,
    ConversionError,
>) -> (r: (State, Action))
    ensures
        (r.0@, r.1@) == file@.first(request.config(), planned(plan)),
        r.0@.valid(),
{
    let original_size: u64 = file.bytes.len() as u64;
    match plan {
        Err(e) => {
            let outcome = ConversionOutcome {
                status: Status::Failed(e),
                original_size,
                final_size: 0,
            };
            (State::Done(outcome), Action::Report(outcome))
        },
        Ok(Plan::PassThrough) => {
            let outcome = ConversionOutcome {
                status: Status::SkippedFallback,
                original_size,
                final_size: original_size,
            };
            (State::Storing(outcome), Action::Store(file.into_copy()))
        },
        Ok(Plan::Encode(input)) => {
            let config: EncoderConfig = request.resolve();
            (State::Encoding(file), Action::Encode(config, input))
        },
    }
}

/// Starts the conversion of a file: decodes it, classifies it and says what
/// to do first.
///
/// Which raster the bytes decode to is the decoder's matter. Whatever it is,
/// the first state and action are those of its plan: bytes that do not decode
/// end the conversion at once as a decode failure and as nothing else, an
/// unsupported raster has the input stored unchanged, and only a supported
/// one has the encoder run.
pub fn begin(file: InputFile, request: CompressionRequest) -> (r: (State, Action))
    ensures
        exists|plan: Result<PlanView, ConversionError>|
            (plan matches Err(e) ==> e == ConversionError::DecodeFailure) && (r.0@, r.1@)
                == #[trigger] file@.first(request.config(), plan),
        r.0@.valid(),
{
    let original_size: usize = file.bytes.len();
    let plan: Result<Plan, ConversionError> = prepare(file.bytes.as_slice());
    let ghost plan_view: Result<PlanView, ConversionError> = planned(plan);
    let r = begin_with(file, request, plan);
    assert((r.0@, r.1@) == file@.first(request.config(), plan_view));
    r
}

/// Answers an event with the next state and action.
pub fn step(state: State, event: Event) -> (r: (State, Action))
    ensures
        (r.0@, r.1@) == state@.next(event@),
        state@.valid() ==> r.0@.valid(),
{
    match state {
        State::Encoding(file) => match event {
            Event::Encoded(Some(artifact)) => {
                let (out, outcome) = file.deliver(artifact);
                (State::Storing(outcome), Action::Store(out))
            },
            _ => {
                let outcome = ConversionOutcome {
                    status: Status::Failed(ConversionError::EncodeFailure),
                    original_size: file.bytes.len() as u64,
                    final_size: 0,
                };
                (State::Done(outcome), Action::Report(outcome))
            },
        },
        State::Storing(outcome) => match event {
            Event::Stored(true) => (State::Done(outcome), Action::Report(outcome)),
            _ => {
                let failed = ConversionOutcome {
                    status: Status::Failed(ConversionError::WriteFailure),
                    original_size: outcome.original_size,
                    final_size: 0,
                };
                (State::Done(failed), Action::Report(failed))
            },
        },
        State::Done(outcome) => (State::Done(outcome), Action::Report(outcome)),
    }
}


/// Where the artifact is not smaller than the input, the file to store is the
/// input itself, byte for byte and under its own extension, and the outcome
/// is a skip.
pub proof fn lemma_fallback_when_not_smaller(file: InputFileView, artifact: Seq<u8>)
    requires
        artifact.len() >= file.bytes.len(),
    ensures
        StateView::Encoding(file).next(EventView::Encoded(Some(artifact))).1 == ActionView::Store(
            file.copy(),
        ),
        file.copy().bytes == file.bytes,
        file.copy().name == file_name(file.stem, copy_extension(file.extension)),
        file.delivery(artifact).1.status == Status::SkippedFallback,
{
}

/// Where the artifact is smaller than the input, the file to store is the
/// artifact, under the codec's extension, and the outcome is a write.
pub proof fn lemma_artifact_when_smaller(file: InputFileView, artifact: Seq<u8>)
    requires
        artifact.len() < file.bytes.len(),
    ensures
        StateView::Encoding(file).next(EventView::Encoded(Some(artifact))).1 == ActionView::Store(
            file.encoded(artifact),
        ),
        file.encoded(artifact).bytes == artifact,
        file.encoded(artifact).name == file_name(file.stem, artifact_extension()),
        file.delivery(artifact).1.status == Status::Written,
{
}

/// A raster of an unsupported colour model has the input stored unchanged,
/// and the encoder is not asked for anything.
pub proof fn lemma_unsupported_passes_through(
    file: InputFileView,
    config: EncoderConfig,
    raster: SourceRaster,
)
    requires
        raster.model().format() == PixelFormat::Unsupported,
    ensures
        raster.plan() == Ok::<PlanView, ConversionError>(PlanView::PassThrough),
        file.first(config, raster.plan()).1 == ActionView::Store(file.copy()),
        file.first(config, raster.plan()).0 is Storing,
        file.copy().bytes == file.bytes,
{
}

/// The encoder is run only as the first thing, and only on a supported
/// raster: no event is answered with a request to encode.
pub proof fn lemma_encoder_asked_once(state: StateView, event: EventView)
    ensures
        !(state.next(event).1 is Encode),
{
}

/// A conversion starts in a valid state.
pub proof fn lemma_first_valid(
    file: InputFileView,
    config: EncoderConfig,
    plan: Result<PlanView, ConversionError>,
)
    requires
        file.bytes.len() <= u64::MAX,
    ensures
        file.first(config, plan).0.valid(),
{
}

/// Every event leads from a valid state to a valid state.
pub proof fn lemma_next_valid(state: StateView, event: EventView)
    requires
        state.valid(),
        event matches EventView::Encoded(Some(artifact)) ==> artifact.len() <= u64::MAX,
    ensures
        state.next(event).0.valid(),
{
}

/// A file that is to be stored is never larger than the input, and the
/// outcome that goes with it tells both sizes.
pub proof fn lemma_stored_never_larger(file: InputFileView, artifact: Seq<u8>)
    requires
        file.bytes.len() <= u64::MAX,
    ensures
        file.delivery(artifact).0.bytes.len() <= file.bytes.len(),
        file.delivery(artifact).1.original_size == file.bytes.len(),
        file.delivery(artifact).1.final_size == file.delivery(artifact).0.bytes.len(),
{
}

} // verus!
