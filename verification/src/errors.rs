//! Failures of the merge pipeline.

use vstd::prelude::*;

verus! {

/// Width, height and components per pixel of a sample plane.
#[derive(Copy, Clone, Debug, PartialEq, Eq, Structural)]
pub struct Dimensions {
    pub width: usize,
    pub height: usize,
    pub cpp: usize,
}

/// Why a value could not be encoded.
#[derive(Clone, Debug, PartialEq, Eq)]
pub enum EncodeCause {
    /// A rational sum needs a numerator or denominator wider than 32 bits.
    RationalOverflow,
    /// A rational operand has denominator zero and so no value.
    ZeroDenominator,
    /// The number of merged exposures does not fit the machine.
    CountOverflow,
    /// The container writer or the preview renderer reported a failure.
    Writer(String),
}

/// What can go wrong between reading the exposures and holding the result.
#[derive(Clone, Debug, PartialEq, Eq)]
#[allow(inconsistent_fields)]
pub enum MergeError {
    /// The RAW file could not be parsed.
    DecodeFailed { path: String, cause: String },
    /// The file decoded, but holds floating-point samples.
    FloatRawUnsupported { path: String },
    /// Two frames to merge disagree on width, height or components.
    DimensionMismatch { left: Dimensions, right: Dimensions },
    /// The file could not be opened or read.
    IoFailed { path: String, cause: String },
    /// The result could not be encoded.
    EncodeFailed { cause: EncodeCause },
    /// An earlier failure stopped the pipeline.
    Aborted,
}

} // verus!
