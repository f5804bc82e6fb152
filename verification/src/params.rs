//! From the user's knobs to the encoder's configuration.
//!
//! Nothing here reads or writes anything: the configuration is computed from
//! the request alone.

use vstd::prelude::*;

verus! {

/// Effort used where none is given, or one outside `1..=10`.
pub const DEFAULT_EFFORT: u8 = 6;

/// Bit pattern of the quality used where none is given: 1.5.
pub const DEFAULT_QUALITY_BITS: u32 = 0x3FC0_0000;

/// Bit pattern of the largest quality of the documented range: 15.0.
pub const MAX_QUALITY_BITS: u32 = 0x4170_0000;

/// The encoder's speed tiers, from the fastest to the one that compresses
/// best.
#[derive(Clone, Copy, Debug, PartialEq, Eq, Structural)]
pub enum SpeedTier {
    Lightning,
    Thunder,
    Falcon,
    Cheetah,
    Hare,
    Wombat,
    Squirrel,
    Kitten,
    Tortoise,
    Glacier,
}

/// The encoder's lossy quality parameter, a distance: a lower value asks for
/// higher fidelity and gives a larger file.
///
/// Verified code does not compute with floating-point numbers, so the value is
/// carried as the bit pattern of the 32-bit float and handed on unchanged.
#[derive(Clone, Copy, Debug, PartialEq, Eq, Structural)]
pub struct Quality {
    pub bits: u32,
}

/// What the user asks for, once per batch.
#[derive(Clone, Copy, Debug, PartialEq, Eq, Structural)]
pub struct CompressionRequest {
    /// `1..=10`; any other value stands for [`DEFAULT_EFFORT`].
    pub effort: u8,
    pub quality: Quality,
    pub lossy: bool,
}

/// What the encoder is set up with.
#[derive(Clone, Copy, Debug, PartialEq, Eq, Structural)]
pub struct EncoderConfig {
    pub speed: SpeedTier,
    pub lossless: bool,
    /// Keep the original colour profile; on exactly in lossless mode.
    pub uses_original_profile: bool,
    /// The distance to encode at; absent in lossless mode, where the encoder
    /// has no use for one.
    pub quality: Option<Quality>,
}

/// The effort that a given one stands for: itself within `1..=10`, else the
/// default.
pub open spec fn effective_effort(effort: int) -> int {
    if 1 <= effort <= 10 {
        effort
    } else {
        DEFAULT_EFFORT as int
    }
}

impl SpeedTier {
    /// The tier's number, 1 for the fastest and 10 for the slowest.
    pub open spec fn level(self) -> int {
        match self {
            SpeedTier::Lightning => 1,
            SpeedTier::Thunder => 2,
            SpeedTier::Falcon => 3,
            SpeedTier::Cheetah => 4,
            SpeedTier::Hare => 5,
            SpeedTier::Wombat => 6,
            SpeedTier::Squirrel => 7,
            SpeedTier::Kitten => 8,
            SpeedTier::Tortoise => 9,
            SpeedTier::Glacier => 10,
        }
    }

    /// The tier of an effort.
    pub open spec fn of_effort(effort: int) -> SpeedTier {
        let e = effective_effort(effort);
        if e == 1 {
            SpeedTier::Lightning
        } else if e == 2 {
            SpeedTier::Thunder
        } else if e == 3 {
            SpeedTier::Falcon
        } else if e == 4 {
            SpeedTier::Cheetah
        } else if e == 5 {
            SpeedTier::Hare
        } else if e == 6 {
            SpeedTier::Wombat
        } else if e == 7 {
            SpeedTier::Squirrel
        } else if e == 8 {
            SpeedTier::Kitten
        } else if e == 9 {
            SpeedTier::Tortoise
        } else {
            SpeedTier::Glacier
        }
    }

    /// The tier's number.
    pub fn number(self) -> (n: u8)
        ensures
            n == self.level(),
            1 <= n <= 10,
    {
        match self {
            SpeedTier::Lightning => 1,
            SpeedTier::Thunder => 2,
            SpeedTier::Falcon => 3,
            SpeedTier::Cheetah => 4,
            SpeedTier::Hare => 5,
            SpeedTier::Wombat => 6,
            SpeedTier::Squirrel => 7,
            SpeedTier::Kitten => 8,
            SpeedTier::Tortoise => 9,
            SpeedTier::Glacier => 10,
        }
    }

    /// Maps an effort to its tier. An effort outside `1..=10` gives the tier
    /// of the default effort.
    pub fn from_effort(effort: u8) -> (tier: SpeedTier)
        ensures
            tier == SpeedTier::of_effort(effort as int),
            tier.level() == effective_effort(effort as int),
    {
        match effort {
            1 => SpeedTier::Lightning,
            2 => SpeedTier::Thunder,
            3 => SpeedTier::Falcon,
            4 => SpeedTier::Cheetah,
            5 => SpeedTier::Hare,
            6 => SpeedTier::Wombat,
            7 => SpeedTier::Squirrel,
            8 => SpeedTier::Kitten,
            9 => SpeedTier::Tortoise,
            10 => SpeedTier::Glacier,
            _ => SpeedTier::Wombat,
        }
    }

    /// Maps an effort that may be missing to its tier.
    pub fn resolve(effort: Option<u8>) -> (tier: SpeedTier)
        ensures
            tier == match effort {
                Some(e) => SpeedTier::of_effort(e as int),
                None => SpeedTier::of_effort(DEFAULT_EFFORT as int),
            },
    {
        match effort {
            Some(e) => SpeedTier::from_effort(e),
            None => SpeedTier::from_effort(DEFAULT_EFFORT),
        }
    }
}

impl Quality {
    /// The quality with the given bit pattern.
    pub fn from_bits(bits: u32) -> (q: Quality)
        ensures
            q.bits == bits,
    {
        Quality { bits }
    }

    /// The bit pattern, as it goes to the encoder.
    pub fn to_bits(self) -> (bits: u32)
        ensures
            bits == self.bits,
    {
        self.bits
    }

    /// The quality used where none is given.
    pub fn default_quality() -> (q: Quality)
        ensures
            q.bits == DEFAULT_QUALITY_BITS,
    {
        Quality { bits: DEFAULT_QUALITY_BITS }
    }

    /// Within the documented range, 0.0 to 15.0. Floats that are not negative
    /// are ordered as their bit patterns are, so the range is the patterns up
    /// to that of 15.0; negative zero, whose sign bit is set, is outside.
    pub open spec fn in_range(self) -> bool {
        self.bits <= MAX_QUALITY_BITS
    }

    pub fn is_in_range(self) -> (b: bool)
        ensures
            b == self.in_range(),
    {
        self.bits <= MAX_QUALITY_BITS
    }
}

impl CompressionRequest {
    /// The configuration that [`CompressionRequest::resolve`] computes.
    pub open spec fn config(self) -> EncoderConfig {
        EncoderConfig {
            speed: SpeedTier::of_effort(self.effort as int),
            lossless: !self.lossy,
            uses_original_profile: !self.lossy,
            quality: if self.lossy {
                Some(self.quality)
            } else {
                None
            },
        }
    }

    /// Builds a request from what the user gave, filling in the defaults for
    /// what is missing.
    pub fn new(effort: Option<u8>, quality: Option<Quality>, lossy: bool) -> (request:
        CompressionRequest)
        ensures
            request.effort == match effort {
                Some(e) => e,
                None => DEFAULT_EFFORT,
            },
            request.quality == match quality {
                Some(q) => q,
                None => (Quality { bits: DEFAULT_QUALITY_BITS }),
            },
            request.lossy == lossy,
    {
        CompressionRequest {
            effort: match effort {
                Some(e) => e,
                None => DEFAULT_EFFORT,
            },
            quality: match quality {
                Some(q) => q,
                None => Quality::default_quality(),
            },
            lossy,
        }
    }

    /// Computes the encoder's configuration. Every request has one.
    pub fn resolve(self) -> (config: EncoderConfig)
        ensures
            config == self.config(),
    {
        EncoderConfig {
            speed: SpeedTier::from_effort(self.effort),
            lossless: !self.lossy,
            uses_original_profile: !self.lossy,
            quality: if self.lossy {
                Some(self.quality)
            } else {
                None
            },
        }
    }
}

/// An effort outside `1..=10` resolves to the tier of the default effort, and
/// so does a missing one.
pub proof fn lemma_effort_defaults(effort: int)
    requires
        !(1 <= effort <= 10),
    ensures
        SpeedTier::of_effort(effort) == SpeedTier::of_effort(DEFAULT_EFFORT as int),
        SpeedTier::of_effort(effort) == SpeedTier::Wombat,
{
}

/// Within `1..=10` the tier's number is the effort, so a higher effort never
/// gives a faster tier.
pub proof fn lemma_tiers_ordered(a: int, b: int)
    requires
        1 <= a <= b <= 10,
    ensures
        SpeedTier::of_effort(a).level() == a,
        SpeedTier::of_effort(b).level() == b,
        SpeedTier::of_effort(a).level() <= SpeedTier::of_effort(b).level(),
{
}

/// In lossless mode the quality given does not reach the configuration: two
/// requests that differ only in it resolve alike, with the lossless flag and
/// the profile flag on. In lossy mode the quality is handed on as it is and
/// the profile flag is off.
pub proof fn lemma_lossless_ignores_quality(a: CompressionRequest, b: CompressionRequest)
    requires
        a.effort == b.effort,
        a.lossy == b.lossy,
    ensures
        !a.lossy ==> a.config() == b.config(),
        !a.lossy ==> a.config().lossless && a.config().uses_original_profile
            && a.config().quality is None,
        a.lossy ==> !a.config().lossless && !a.config().uses_original_profile
            && a.config().quality == Some(a.quality),
{
}

} // verus!
