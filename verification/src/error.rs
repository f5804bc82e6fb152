use vstd::prelude::*;

verus! {

/// Why the conversion of one file stopped.
///
/// Every variant is local to a single file: a batch goes on with the next one.
#[derive(Clone, Copy, Debug, PartialEq, Eq, Structural)]
pub enum ConversionError {
    /// The input could not be decoded into a raster.
    DecodeFailure,
    /// The channel layout or sample type is one the engines do not handle.
    UnsupportedColorModel,
    /// The encoder refused the raster.
    EncodeFailure,
    /// The output could not be produced or stored.
    WriteFailure,
    /// The lossless re-optimizer failed.
    OptimizeFailure,
    /// A decoded sample buffer does not hold width x height x channels samples.
    MalformedReconstructedBuffer,
}

} // verus!
