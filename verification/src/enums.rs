//! One codec per hardware enumeration.
//!
//! Each type offers `to_raw`, which is total, and `from_raw`, which accepts
//! exactly the values the SDK documents for it.  `is_known` tells a caller
//! outside the verifier's reach whether a value may be handed to `from_raw`.
//! Decoding is the inverse of encoding: `spec_from_raw` is defined as the
//! variant that encodes to the given value, and the two lemmas of each type
//! say that the round trip holds in both directions.

use vstd::prelude::*;
use crate::abi;

verus! {

/// The colour-filter tiling of a colour sensor.
#[derive(Debug, Clone, Copy, PartialEq, Eq, Structural)]
pub enum ASIBayerPattern {
    RG,
    BG,
    GR,
    GB,
}

impl ASIBayerPattern {
    /// The value the SDK uses for this variant.
    pub open spec fn spec_to_raw(self) -> i32 {
        match self {
            ASIBayerPattern::RG => abi::ASI_BAYER_RG,
            ASIBayerPattern::BG => abi::ASI_BAYER_BG,
            ASIBayerPattern::GR => abi::ASI_BAYER_GR,
            ASIBayerPattern::GB => abi::ASI_BAYER_GB,
        }
    }

    /// Whether the SDK documents `raw` as a value of this enumeration.
    pub open spec fn spec_is_known(raw: i32) -> bool {
        raw == abi::ASI_BAYER_RG
            || raw == abi::ASI_BAYER_BG
            || raw == abi::ASI_BAYER_GR
            || raw == abi::ASI_BAYER_GB
    }

    /// The variant that `raw` stands for.
    pub open spec fn spec_from_raw(raw: i32) -> Self {
        choose|v: Self| v.spec_to_raw() == raw
    }

    #[verifier::when_used_as_spec(spec_to_raw)]
    pub fn to_raw(self) -> (raw: i32)
        ensures
            raw == self.spec_to_raw(),
            Self::spec_is_known(raw),
    {
        match self {
            ASIBayerPattern::RG => abi::ASI_BAYER_RG,
            ASIBayerPattern::BG => abi::ASI_BAYER_BG,
            ASIBayerPattern::GR => abi::ASI_BAYER_GR,
            ASIBayerPattern::GB => abi::ASI_BAYER_GB,
        }
    }

    #[verifier::when_used_as_spec(spec_is_known)]
    pub fn is_known(raw: i32) -> (b: bool)
        ensures
            b == Self::spec_is_known(raw),
    {
        raw == abi::ASI_BAYER_RG
            || raw == abi::ASI_BAYER_BG
            || raw == abi::ASI_BAYER_GR
            || raw == abi::ASI_BAYER_GB
    }

    /// Decodes a value that the SDK documents.  Any other value means that
    /// the binding and the hardware disagree, and is not accepted.
    pub fn from_raw(bayer_pattern: i32) -> (v: Self)
        requires
            Self::spec_is_known(bayer_pattern),
        ensures
            v == Self::spec_from_raw(bayer_pattern),
            v.spec_to_raw() == bayer_pattern,
    {
        let v = match bayer_pattern {
            abi::ASI_BAYER_RG => ASIBayerPattern::RG,
            abi::ASI_BAYER_BG => ASIBayerPattern::BG,
            abi::ASI_BAYER_GR => ASIBayerPattern::GR,
            abi::ASI_BAYER_GB => ASIBayerPattern::GB,
            _ => unreached(),
        };
        proof {
            Self::lemma_to_raw_from_raw(v);
        }
        v
    }

    /// Encoding a variant and decoding the result gives the variant back.
    pub proof fn lemma_to_raw_from_raw(v: Self)
        ensures
            Self::spec_is_known(v.spec_to_raw()),
            Self::spec_from_raw(v.spec_to_raw()) == v,
    {
        let back = Self::spec_from_raw(v.spec_to_raw());
        assert(back.spec_to_raw() == v.spec_to_raw());
    }

    /// The documented values are exactly those that some variant encodes
    /// to.
    pub proof fn lemma_known_iff_encoded(raw: i32)
        ensures
            Self::spec_is_known(raw) <==> exists|v: Self| v.spec_to_raw() == raw,
    {
        if Self::spec_is_known(raw) {
            Self::lemma_from_raw_to_raw(raw);
        }
    }

    /// Decoding a documented value and encoding the result gives the value
    /// back.
    pub proof fn lemma_from_raw_to_raw(raw: i32)
        requires
            Self::spec_is_known(raw),
        ensures
            Self::spec_from_raw(raw).spec_to_raw() == raw,
    {
        if raw == abi::ASI_BAYER_RG {
            assert(ASIBayerPattern::RG.spec_to_raw() == raw);
        } else if raw == abi::ASI_BAYER_BG {
            assert(ASIBayerPattern::BG.spec_to_raw() == raw);
        } else if raw == abi::ASI_BAYER_GR {
            assert(ASIBayerPattern::GR.spec_to_raw() == raw);
        } else if raw == abi::ASI_BAYER_GB {
            assert(ASIBayerPattern::GB.spec_to_raw() == raw);
        }
    }
}

/// A pixel encoding.  `End` is no encoding: it closes the list of
/// encodings a camera supports.
#[derive(Debug, Clone, Copy, PartialEq, Eq, Structural)]
pub enum ASIImageType {
    Raw8,
    Rgb24,
    Raw16,
    Y8,
    End,
}

impl ASIImageType {
    /// The value the SDK uses for this variant.
    pub open spec fn spec_to_raw(self) -> i32 {
        match self {
            ASIImageType::Raw8 => abi::ASI_IMG_RAW8,
            ASIImageType::Rgb24 => abi::ASI_IMG_RGB24,
            ASIImageType::Raw16 => abi::ASI_IMG_RAW16,
            ASIImageType::Y8 => abi::ASI_IMG_Y8,
            ASIImageType::End => abi::ASI_IMG_END,
        }
    }

    /// Whether the SDK documents `raw` as a value of this enumeration.
    pub open spec fn spec_is_known(raw: i32) -> bool {
        raw == abi::ASI_IMG_RAW8
            || raw == abi::ASI_IMG_RGB24
            || raw == abi::ASI_IMG_RAW16
            || raw == abi::ASI_IMG_Y8
            || raw == abi::ASI_IMG_END
    }

    /// The variant that `raw` stands for.
    pub open spec fn spec_from_raw(raw: i32) -> Self {
        choose|v: Self| v.spec_to_raw() == raw
    }

    #[verifier::when_used_as_spec(spec_to_raw)]
    pub fn to_raw(self) -> (raw: i32)
        ensures
            raw == self.spec_to_raw(),
            Self::spec_is_known(raw),
    {
        match self {
            ASIImageType::Raw8 => abi::ASI_IMG_RAW8,
            ASIImageType::Rgb24 => abi::ASI_IMG_RGB24,
            ASIImageType::Raw16 => abi::ASI_IMG_RAW16,
            ASIImageType::Y8 => abi::ASI_IMG_Y8,
            ASIImageType::End => abi::ASI_IMG_END,
        }
    }

    #[verifier::when_used_as_spec(spec_is_known)]
    pub fn is_known(raw: i32) -> (b: bool)
        ensures
            b == Self::spec_is_known(raw),
    {
        raw == abi::ASI_IMG_RAW8
            || raw == abi::ASI_IMG_RGB24
            || raw == abi::ASI_IMG_RAW16
            || raw == abi::ASI_IMG_Y8
            || raw == abi::ASI_IMG_END
    }

    /// Decodes a value that the SDK documents.  Any other value means that
    /// the binding and the hardware disagree, and is not accepted.
    pub fn from_raw(image_type: i32) -> (v: Self)
        requires
            Self::spec_is_known(image_type),
        ensures
            v == Self::spec_from_raw(image_type),
            v.spec_to_raw() == image_type,
    {
        let v = match image_type {
            abi::ASI_IMG_RAW8 => ASIImageType::Raw8,
            abi::ASI_IMG_RGB24 => ASIImageType::Rgb24,
            abi::ASI_IMG_RAW16 => ASIImageType::Raw16,
            abi::ASI_IMG_Y8 => ASIImageType::Y8,
            abi::ASI_IMG_END => ASIImageType::End,
            _ => unreached(),
        };
        proof {
            Self::lemma_to_raw_from_raw(v);
        }
        v
    }

    /// Encoding a variant and decoding the result gives the variant back.
    pub proof fn lemma_to_raw_from_raw(v: Self)
        ensures
            Self::spec_is_known(v.spec_to_raw()),
            Self::spec_from_raw(v.spec_to_raw()) == v,
    {
        let back = Self::spec_from_raw(v.spec_to_raw());
        assert(back.spec_to_raw() == v.spec_to_raw());
    }

    /// The documented values are exactly those that some variant encodes
    /// to.
    pub proof fn lemma_known_iff_encoded(raw: i32)
        ensures
            Self::spec_is_known(raw) <==> exists|v: Self| v.spec_to_raw() == raw,
    {
        if Self::spec_is_known(raw) {
            Self::lemma_from_raw_to_raw(raw);
        }
    }

    /// Decoding a documented value and encoding the result gives the value
    /// back.
    pub proof fn lemma_from_raw_to_raw(raw: i32)
        requires
            Self::spec_is_known(raw),
        ensures
            Self::spec_from_raw(raw).spec_to_raw() == raw,
    {
        if raw == abi::ASI_IMG_RAW8 {
            assert(ASIImageType::Raw8.spec_to_raw() == raw);
        } else if raw == abi::ASI_IMG_RGB24 {
            assert(ASIImageType::Rgb24.spec_to_raw() == raw);
        } else if raw == abi::ASI_IMG_RAW16 {
            assert(ASIImageType::Raw16.spec_to_raw() == raw);
        } else if raw == abi::ASI_IMG_Y8 {
            assert(ASIImageType::Y8.spec_to_raw() == raw);
        } else if raw == abi::ASI_IMG_END {
            assert(ASIImageType::End.spec_to_raw() == raw);
        }
    }
}

/// A direction on the auxiliary guiding port.
#[derive(Debug, Clone, Copy, PartialEq, Eq, Structural)]
pub enum ASIGuideDirection {
    North,
    South,
    East,
    West,
}

impl ASIGuideDirection {
    /// The value the SDK uses for this variant.
    pub open spec fn spec_to_raw(self) -> i32 {
        match self {
            ASIGuideDirection::North => abi::ASI_GUIDE_NORTH,
            ASIGuideDirection::South => abi::ASI_GUIDE_SOUTH,
            ASIGuideDirection::East => abi::ASI_GUIDE_EAST,
            ASIGuideDirection::West => abi::ASI_GUIDE_WEST,
        }
    }

    /// Whether the SDK documents `raw` as a value of this enumeration.
    pub open spec fn spec_is_known(raw: i32) -> bool {
        raw == abi::ASI_GUIDE_NORTH
            || raw == abi::ASI_GUIDE_SOUTH
            || raw == abi::ASI_GUIDE_EAST
            || raw == abi::ASI_GUIDE_WEST
    }

    /// The variant that `raw` stands for.
    pub open spec fn spec_from_raw(raw: i32) -> Self {
        choose|v: Self| v.spec_to_raw() == raw
    }

    #[verifier::when_used_as_spec(spec_to_raw)]
    pub fn to_raw(self) -> (raw: i32)
        ensures
            raw == self.spec_to_raw(),
            Self::spec_is_known(raw),
    {
        match self {
            ASIGuideDirection::North => abi::ASI_GUIDE_NORTH,
            ASIGuideDirection::South => abi::ASI_GUIDE_SOUTH,
            ASIGuideDirection::East => abi::ASI_GUIDE_EAST,
            ASIGuideDirection::West => abi::ASI_GUIDE_WEST,
        }
    }

    #[verifier::when_used_as_spec(spec_is_known)]
    pub fn is_known(raw: i32) -> (b: bool)
        ensures
            b == Self::spec_is_known(raw),
    {
        raw == abi::ASI_GUIDE_NORTH
            || raw == abi::ASI_GUIDE_SOUTH
            || raw == abi::ASI_GUIDE_EAST
            || raw == abi::ASI_GUIDE_WEST
    }

    /// Decodes a value that the SDK documents.  Any other value means that
    /// the binding and the hardware disagree, and is not accepted.
    pub fn from_raw(guide_direction: i32) -> (v: Self)
        requires
            Self::spec_is_known(guide_direction),
        ensures
            v == Self::spec_from_raw(guide_direction),
            v.spec_to_raw() == guide_direction,
    {
        let v = match guide_direction {
            abi::ASI_GUIDE_NORTH => ASIGuideDirection::North,
            abi::ASI_GUIDE_SOUTH => ASIGuideDirection::South,
            abi::ASI_GUIDE_EAST => ASIGuideDirection::East,
            abi::ASI_GUIDE_WEST => ASIGuideDirection::West,
            _ => unreached(),
        };
        proof {
            Self::lemma_to_raw_from_raw(v);
        }
        v
    }

    /// Encoding a variant and decoding the result gives the variant back.
    pub proof fn lemma_to_raw_from_raw(v: Self)
        ensures
            Self::spec_is_known(v.spec_to_raw()),
            Self::spec_from_raw(v.spec_to_raw()) == v,
    {
        let back = Self::spec_from_raw(v.spec_to_raw());
        assert(back.spec_to_raw() == v.spec_to_raw());
    }

    /// The documented values are exactly those that some variant encodes
    /// to.
    pub proof fn lemma_known_iff_encoded(raw: i32)
        ensures
            Self::spec_is_known(raw) <==> exists|v: Self| v.spec_to_raw() == raw,
    {
        if Self::spec_is_known(raw) {
            Self::lemma_from_raw_to_raw(raw);
        }
    }

    /// Decoding a documented value and encoding the result gives the value
    /// back.
    pub proof fn lemma_from_raw_to_raw(raw: i32)
        requires
            Self::spec_is_known(raw),
        ensures
            Self::spec_from_raw(raw).spec_to_raw() == raw,
    {
        if raw == abi::ASI_GUIDE_NORTH {
            assert(ASIGuideDirection::North.spec_to_raw() == raw);
        } else if raw == abi::ASI_GUIDE_SOUTH {
            assert(ASIGuideDirection::South.spec_to_raw() == raw);
        } else if raw == abi::ASI_GUIDE_EAST {
            assert(ASIGuideDirection::East.spec_to_raw() == raw);
        } else if raw == abi::ASI_GUIDE_WEST {
            assert(ASIGuideDirection::West.spec_to_raw() == raw);
        }
    }
}

/// How the image is mirrored.
#[derive(Debug, Clone, Copy, PartialEq, Eq, Structural)]
pub enum ASIFlipStatus {
    NoFlip,
    Horizontal,
    Vertical,
    Both,
}

impl ASIFlipStatus {
    /// The value the SDK uses for this variant.
    pub open spec fn spec_to_raw(self) -> i32 {
        match self {
            ASIFlipStatus::NoFlip => abi::ASI_FLIP_NONE,
            ASIFlipStatus::Horizontal => abi::ASI_FLIP_HORIZ,
            ASIFlipStatus::Vertical => abi::ASI_FLIP_VERT,
            ASIFlipStatus::Both => abi::ASI_FLIP_BOTH,
        }
    }

    /// Whether the SDK documents `raw` as a value of this enumeration.
    pub open spec fn spec_is_known(raw: i32) -> bool {
        raw == abi::ASI_FLIP_NONE
            || raw == abi::ASI_FLIP_HORIZ
            || raw == abi::ASI_FLIP_VERT
            || raw == abi::ASI_FLIP_BOTH
    }

    /// The variant that `raw` stands for.
    pub open spec fn spec_from_raw(raw: i32) -> Self {
        choose|v: Self| v.spec_to_raw() == raw
    }

    #[verifier::when_used_as_spec(spec_to_raw)]
    pub fn to_raw(self) -> (raw: i32)
        ensures
            raw == self.spec_to_raw(),
            Self::spec_is_known(raw),
    {
        match self {
            ASIFlipStatus::NoFlip => abi::ASI_FLIP_NONE,
            ASIFlipStatus::Horizontal => abi::ASI_FLIP_HORIZ,
            ASIFlipStatus::Vertical => abi::ASI_FLIP_VERT,
            ASIFlipStatus::Both => abi::ASI_FLIP_BOTH,
        }
    }

    #[verifier::when_used_as_spec(spec_is_known)]
    pub fn is_known(raw: i32) -> (b: bool)
        ensures
            b == Self::spec_is_known(raw),
    {
        raw == abi::ASI_FLIP_NONE
            || raw == abi::ASI_FLIP_HORIZ
            || raw == abi::ASI_FLIP_VERT
            || raw == abi::ASI_FLIP_BOTH
    }

    /// Decodes a value that the SDK documents.  Any other value means that
    /// the binding and the hardware disagree, and is not accepted.
    pub fn from_raw(flip_status: i32) -> (v: Self)
        requires
            Self::spec_is_known(flip_status),
        ensures
            v == Self::spec_from_raw(flip_status),
            v.spec_to_raw() == flip_status,
    {
        let v = match flip_status {
            abi::ASI_FLIP_NONE => ASIFlipStatus::NoFlip,
            abi::ASI_FLIP_HORIZ => ASIFlipStatus::Horizontal,
            abi::ASI_FLIP_VERT => ASIFlipStatus::Vertical,
            abi::ASI_FLIP_BOTH => ASIFlipStatus::Both,
            _ => unreached(),
        };
        proof {
            Self::lemma_to_raw_from_raw(v);
        }
        v
    }

    /// Encoding a variant and decoding the result gives the variant back.
    pub proof fn lemma_to_raw_from_raw(v: Self)
        ensures
            Self::spec_is_known(v.spec_to_raw()),
            Self::spec_from_raw(v.spec_to_raw()) == v,
    {
        let back = Self::spec_from_raw(v.spec_to_raw());
        assert(back.spec_to_raw() == v.spec_to_raw());
    }

    /// The documented values are exactly those that some variant encodes
    /// to.
    pub proof fn lemma_known_iff_encoded(raw: i32)
        ensures
            Self::spec_is_known(raw) <==> exists|v: Self| v.spec_to_raw() == raw,
    {
        if Self::spec_is_known(raw) {
            Self::lemma_from_raw_to_raw(raw);
        }
    }

    /// Decoding a documented value and encoding the result gives the value
    /// back.
    pub proof fn lemma_from_raw_to_raw(raw: i32)
        requires
            Self::spec_is_known(raw),
        ensures
            Self::spec_from_raw(raw).spec_to_raw() == raw,
    {
        if raw == abi::ASI_FLIP_NONE {
            assert(ASIFlipStatus::NoFlip.spec_to_raw() == raw);
        } else if raw == abi::ASI_FLIP_HORIZ {
            assert(ASIFlipStatus::Horizontal.spec_to_raw() == raw);
        } else if raw == abi::ASI_FLIP_VERT {
            assert(ASIFlipStatus::Vertical.spec_to_raw() == raw);
        } else if raw == abi::ASI_FLIP_BOTH {
            assert(ASIFlipStatus::Both.spec_to_raw() == raw);
        }
    }
}

/// An operating mode of a trigger-capable camera.  `End` is no mode: it
/// closes the list of modes a camera supports.
#[derive(Debug, Clone, Copy, PartialEq, Eq, Structural)]
pub enum ASICameraMode {
    Normal,
    TrigSoftEdge,
    TrigRiseEdge,
    TrigFallEdge,
    TrigSoftLevel,
    TrigHighLevel,
    TrigLowLevel,
    End,
}

impl ASICameraMode {
    /// The value the SDK uses for this variant.
    pub open spec fn spec_to_raw(self) -> i32 {
        match self {
            ASICameraMode::Normal => abi::ASI_MODE_NORMAL,
            ASICameraMode::TrigSoftEdge => abi::ASI_MODE_TRIG_SOFT_EDGE,
            ASICameraMode::TrigRiseEdge => abi::ASI_MODE_TRIG_RISE_EDGE,
            ASICameraMode::TrigFallEdge => abi::ASI_MODE_TRIG_FALL_EDGE,
            ASICameraMode::TrigSoftLevel => abi::ASI_MODE_TRIG_SOFT_LEVEL,
            ASICameraMode::TrigHighLevel => abi::ASI_MODE_TRIG_HIGH_LEVEL,
            ASICameraMode::TrigLowLevel => abi::ASI_MODE_TRIG_LOW_LEVEL,
            ASICameraMode::End => abi::ASI_MODE_END,
        }
    }

    /// Whether the SDK documents `raw` as a value of this enumeration.
    pub open spec fn spec_is_known(raw: i32) -> bool {
        raw == abi::ASI_MODE_NORMAL
            || raw == abi::ASI_MODE_TRIG_SOFT_EDGE
            || raw == abi::ASI_MODE_TRIG_RISE_EDGE
            || raw == abi::ASI_MODE_TRIG_FALL_EDGE
            || raw == abi::ASI_MODE_TRIG_SOFT_LEVEL
            || raw == abi::ASI_MODE_TRIG_HIGH_LEVEL
            || raw == abi::ASI_MODE_TRIG_LOW_LEVEL
            || raw == abi::ASI_MODE_END
    }

    /// The variant that `raw` stands for.
    pub open spec fn spec_from_raw(raw: i32) -> Self {
        choose|v: Self| v.spec_to_raw() == raw
    }

    #[verifier::when_used_as_spec(spec_to_raw)]
    pub fn to_raw(self) -> (raw: i32)
        ensures
            raw == self.spec_to_raw(),
            Self::spec_is_known(raw),
    {
        match self {
            ASICameraMode::Normal => abi::ASI_MODE_NORMAL,
            ASICameraMode::TrigSoftEdge => abi::ASI_MODE_TRIG_SOFT_EDGE,
            ASICameraMode::TrigRiseEdge => abi::ASI_MODE_TRIG_RISE_EDGE,
            ASICameraMode::TrigFallEdge => abi::ASI_MODE_TRIG_FALL_EDGE,
            ASICameraMode::TrigSoftLevel => abi::ASI_MODE_TRIG_SOFT_LEVEL,
            ASICameraMode::TrigHighLevel => abi::ASI_MODE_TRIG_HIGH_LEVEL,
            ASICameraMode::TrigLowLevel => abi::ASI_MODE_TRIG_LOW_LEVEL,
            ASICameraMode::End => abi::ASI_MODE_END,
        }
    }

    #[verifier::when_used_as_spec(spec_is_known)]
    pub fn is_known(raw: i32) -> (b: bool)
        ensures
            b == Self::spec_is_known(raw),
    {
        raw == abi::ASI_MODE_NORMAL
            || raw == abi::ASI_MODE_TRIG_SOFT_EDGE
            || raw == abi::ASI_MODE_TRIG_RISE_EDGE
            || raw == abi::ASI_MODE_TRIG_FALL_EDGE
            || raw == abi::ASI_MODE_TRIG_SOFT_LEVEL
            || raw == abi::ASI_MODE_TRIG_HIGH_LEVEL
            || raw == abi::ASI_MODE_TRIG_LOW_LEVEL
            || raw == abi::ASI_MODE_END
    }

    /// Decodes a value that the SDK documents.  Any other value means that
    /// the binding and the hardware disagree, and is not accepted.
    pub fn from_raw(camera_mode: i32) -> (v: Self)
        requires
            Self::spec_is_known(camera_mode),
        ensures
            v == Self::spec_from_raw(camera_mode),
            v.spec_to_raw() == camera_mode,
    {
        let v = match camera_mode {
            abi::ASI_MODE_NORMAL => ASICameraMode::Normal,
            abi::ASI_MODE_TRIG_SOFT_EDGE => ASICameraMode::TrigSoftEdge,
            abi::ASI_MODE_TRIG_RISE_EDGE => ASICameraMode::TrigRiseEdge,
            abi::ASI_MODE_TRIG_FALL_EDGE => ASICameraMode::TrigFallEdge,
            abi::ASI_MODE_TRIG_SOFT_LEVEL => ASICameraMode::TrigSoftLevel,
            abi::ASI_MODE_TRIG_HIGH_LEVEL => ASICameraMode::TrigHighLevel,
            abi::ASI_MODE_TRIG_LOW_LEVEL => ASICameraMode::TrigLowLevel,
            abi::ASI_MODE_END => ASICameraMode::End,
            _ => unreached(),
        };
        proof {
            Self::lemma_to_raw_from_raw(v);
        }
        v
    }

    /// Encoding a variant and decoding the result gives the variant back.
    pub proof fn lemma_to_raw_from_raw(v: Self)
        ensures
            Self::spec_is_known(v.spec_to_raw()),
            Self::spec_from_raw(v.spec_to_raw()) == v,
    {
        let back = Self::spec_from_raw(v.spec_to_raw());
        assert(back.spec_to_raw() == v.spec_to_raw());
    }

    /// The documented values are exactly those that some variant encodes
    /// to.
    pub proof fn lemma_known_iff_encoded(raw: i32)
        ensures
            Self::spec_is_known(raw) <==> exists|v: Self| v.spec_to_raw() == raw,
    {
        if Self::spec_is_known(raw) {
            Self::lemma_from_raw_to_raw(raw);
        }
    }

    /// Decoding a documented value and encoding the result gives the value
    /// back.
    pub proof fn lemma_from_raw_to_raw(raw: i32)
        requires
            Self::spec_is_known(raw),
        ensures
            Self::spec_from_raw(raw).spec_to_raw() == raw,
    {
        if raw == abi::ASI_MODE_NORMAL {
            assert(ASICameraMode::Normal.spec_to_raw() == raw);
        } else if raw == abi::ASI_MODE_TRIG_SOFT_EDGE {
            assert(ASICameraMode::TrigSoftEdge.spec_to_raw() == raw);
        } else if raw == abi::ASI_MODE_TRIG_RISE_EDGE {
            assert(ASICameraMode::TrigRiseEdge.spec_to_raw() == raw);
        } else if raw == abi::ASI_MODE_TRIG_FALL_EDGE {
            assert(ASICameraMode::TrigFallEdge.spec_to_raw() == raw);
        } else if raw == abi::ASI_MODE_TRIG_SOFT_LEVEL {
            assert(ASICameraMode::TrigSoftLevel.spec_to_raw() == raw);
        } else if raw == abi::ASI_MODE_TRIG_HIGH_LEVEL {
            assert(ASICameraMode::TrigHighLevel.spec_to_raw() == raw);
        } else if raw == abi::ASI_MODE_TRIG_LOW_LEVEL {
            assert(ASICameraMode::TrigLowLevel.spec_to_raw() == raw);
        } else if raw == abi::ASI_MODE_END {
            assert(ASICameraMode::End.spec_to_raw() == raw);
        }
    }
}

/// An output pin of the trigger port.
#[derive(Debug, Clone, Copy, PartialEq, Eq, Structural)]
pub enum ASITrigOutput {
    PinA,
    PinB,
    NoPin,
}

impl ASITrigOutput {
    /// The value the SDK uses for this variant.
    pub open spec fn spec_to_raw(self) -> i32 {
        match self {
            ASITrigOutput::PinA => abi::ASI_TRIG_OUTPUT_PINA,
            ASITrigOutput::PinB => abi::ASI_TRIG_OUTPUT_PINB,
            ASITrigOutput::NoPin => abi::ASI_TRIG_OUTPUT_NONE,
        }
    }

    /// Whether the SDK documents `raw` as a value of this enumeration.
    pub open spec fn spec_is_known(raw: i32) -> bool {
        raw == abi::ASI_TRIG_OUTPUT_PINA
            || raw == abi::ASI_TRIG_OUTPUT_PINB
            || raw == abi::ASI_TRIG_OUTPUT_NONE
    }

    /// The variant that `raw` stands for.
    pub open spec fn spec_from_raw(raw: i32) -> Self {
        choose|v: Self| v.spec_to_raw() == raw
    }

    #[verifier::when_used_as_spec(spec_to_raw)]
    pub fn to_raw(self) -> (raw: i32)
        ensures
            raw == self.spec_to_raw(),
            Self::spec_is_known(raw),
    {
        match self {
            ASITrigOutput::PinA => abi::ASI_TRIG_OUTPUT_PINA,
            ASITrigOutput::PinB => abi::ASI_TRIG_OUTPUT_PINB,
            ASITrigOutput::NoPin => abi::ASI_TRIG_OUTPUT_NONE,
        }
    }

    #[verifier::when_used_as_spec(spec_is_known)]
    pub fn is_known(raw: i32) -> (b: bool)
        ensures
            b == Self::spec_is_known(raw),
    {
        raw == abi::ASI_TRIG_OUTPUT_PINA
            || raw == abi::ASI_TRIG_OUTPUT_PINB
            || raw == abi::ASI_TRIG_OUTPUT_NONE
    }

    /// Decodes a value that the SDK documents.  Any other value means that
    /// the binding and the hardware disagree, and is not accepted.
    pub fn from_raw(trig_output: i32) -> (v: Self)
        requires
            Self::spec_is_known(trig_output),
        ensures
            v == Self::spec_from_raw(trig_output),
            v.spec_to_raw() == trig_output,
    {
        let v = match trig_output {
            abi::ASI_TRIG_OUTPUT_PINA => ASITrigOutput::PinA,
            abi::ASI_TRIG_OUTPUT_PINB => ASITrigOutput::PinB,
            abi::ASI_TRIG_OUTPUT_NONE => ASITrigOutput::NoPin,
            _ => unreached(),
        };
        proof {
            Self::lemma_to_raw_from_raw(v);
        }
        v
    }

    /// Encoding a variant and decoding the result gives the variant back.
    pub proof fn lemma_to_raw_from_raw(v: Self)
        ensures
            Self::spec_is_known(v.spec_to_raw()),
            Self::spec_from_raw(v.spec_to_raw()) == v,
    {
        let back = Self::spec_from_raw(v.spec_to_raw());
        assert(back.spec_to_raw() == v.spec_to_raw());
    }

    /// The documented values are exactly those that some variant encodes
    /// to.
    pub proof fn lemma_known_iff_encoded(raw: i32)
        ensures
            Self::spec_is_known(raw) <==> exists|v: Self| v.spec_to_raw() == raw,
    {
        if Self::spec_is_known(raw) {
            Self::lemma_from_raw_to_raw(raw);
        }
    }

    /// Decoding a documented value and encoding the result gives the value
    /// back.
    pub proof fn lemma_from_raw_to_raw(raw: i32)
        requires
            Self::spec_is_known(raw),
        ensures
            Self::spec_from_raw(raw).spec_to_raw() == raw,
    {
        if raw == abi::ASI_TRIG_OUTPUT_PINA {
            assert(ASITrigOutput::PinA.spec_to_raw() == raw);
        } else if raw == abi::ASI_TRIG_OUTPUT_PINB {
            assert(ASITrigOutput::PinB.spec_to_raw() == raw);
        } else if raw == abi::ASI_TRIG_OUTPUT_NONE {
            assert(ASITrigOutput::NoPin.spec_to_raw() == raw);
        }
    }
}

/// The SDK's boolean.
#[derive(Debug, Clone, Copy, PartialEq, Eq, Structural)]
pub enum ASIBool {
    False,
    True,
}

impl ASIBool {
    /// The value the SDK uses for this variant.
    pub open spec fn spec_to_raw(self) -> i32 {
        match self {
            ASIBool::False => abi::ASI_FALSE,
            ASIBool::True => abi::ASI_TRUE,
        }
    }

    /// Whether the SDK documents `raw` as a value of this enumeration.
    pub open spec fn spec_is_known(raw: i32) -> bool {
        raw == abi::ASI_FALSE
            || raw == abi::ASI_TRUE
    }

    /// The variant that `raw` stands for.
    pub open spec fn spec_from_raw(raw: i32) -> Self {
        choose|v: Self| v.spec_to_raw() == raw
    }

    #[verifier::when_used_as_spec(spec_to_raw)]
    pub fn to_raw(self) -> (raw: i32)
        ensures
            raw == self.spec_to_raw(),
            Self::spec_is_known(raw),
    {
        match self {
            ASIBool::False => abi::ASI_FALSE,
            ASIBool::True => abi::ASI_TRUE,
        }
    }

    #[verifier::when_used_as_spec(spec_is_known)]
    pub fn is_known(raw: i32) -> (b: bool)
        ensures
            b == Self::spec_is_known(raw),
    {
        raw == abi::ASI_FALSE
            || raw == abi::ASI_TRUE
    }

    /// Decodes a value that the SDK documents.  Any other value means that
    /// the binding and the hardware disagree, and is not accepted.
    pub fn from_raw(asi_bool: i32) -> (v: Self)
        requires
            Self::spec_is_known(asi_bool),
        ensures
            v == Self::spec_from_raw(asi_bool),
            v.spec_to_raw() == asi_bool,
    {
        let v = match asi_bool {
            abi::ASI_FALSE => ASIBool::False,
            abi::ASI_TRUE => ASIBool::True,
            _ => unreached(),
        };
        proof {
            Self::lemma_to_raw_from_raw(v);
        }
        v
    }

    /// Encoding a variant and decoding the result gives the variant back.
    pub proof fn lemma_to_raw_from_raw(v: Self)
        ensures
            Self::spec_is_known(v.spec_to_raw()),
            Self::spec_from_raw(v.spec_to_raw()) == v,
    {
        let back = Self::spec_from_raw(v.spec_to_raw());
        assert(back.spec_to_raw() == v.spec_to_raw());
    }

    /// The documented values are exactly those that some variant encodes
    /// to.
    pub proof fn lemma_known_iff_encoded(raw: i32)
        ensures
            Self::spec_is_known(raw) <==> exists|v: Self| v.spec_to_raw() == raw,
    {
        if Self::spec_is_known(raw) {
            Self::lemma_from_raw_to_raw(raw);
        }
    }

    /// Decoding a documented value and encoding the result gives the value
    /// back.
    pub proof fn lemma_from_raw_to_raw(raw: i32)
        requires
            Self::spec_is_known(raw),
        ensures
            Self::spec_from_raw(raw).spec_to_raw() == raw,
    {
        if raw == abi::ASI_FALSE {
            assert(ASIBool::False.spec_to_raw() == raw);
        } else if raw == abi::ASI_TRUE {
            assert(ASIBool::True.spec_to_raw() == raw);
        }
    }

    pub open spec fn spec_to_bool(self) -> bool {
        self == ASIBool::True
    }

    pub open spec fn spec_from_bool(b: bool) -> ASIBool {
        if b {
            ASIBool::True
        } else {
            ASIBool::False
        }
    }

    /// A host boolean comes back from its raw value.
    pub proof fn lemma_flag_round_trip(b: bool)
        ensures
            Self::spec_is_known(Self::spec_from_bool(b).spec_to_raw()),
            Self::spec_from_raw(Self::spec_from_bool(b).spec_to_raw()).spec_to_bool() == b,
    {
        Self::lemma_to_raw_from_raw(Self::spec_from_bool(b));
    }

    /// A documented raw boolean comes back from its host value.
    pub proof fn lemma_raw_flag_round_trip(raw: i32)
        requires
            Self::spec_is_known(raw),
        ensures
            Self::spec_from_bool(Self::spec_from_raw(raw).spec_to_bool()).spec_to_raw() == raw,
    {
        Self::lemma_from_raw_to_raw(raw);
    }

    #[verifier::when_used_as_spec(spec_to_bool)]
    pub fn to_bool(self) -> (b: bool)
        ensures
            b == self.spec_to_bool(),
    {
        match self {
            ASIBool::False => false,
            ASIBool::True => true,
        }
    }

    #[verifier::when_used_as_spec(spec_from_bool)]
    pub fn from_bool(b: bool) -> (v: ASIBool)
        ensures
            v == Self::spec_from_bool(b),
    {
        match b {
            true => ASIBool::True,
            false => ASIBool::False,
        }
    }
}

/// Which adjustable parameter a control is.
#[derive(Debug, Clone, Copy, PartialEq, Eq, Structural)]
pub enum ASIControlType {
    Gain,
    Exposure,
    Gamma,
    WbR,
    WbB,
    Offset,
    BandwidthOverload,
    OverClock,
    Temperature,
    Flip,
    AutoMaxGain,
    AutoMaxExp,
    AutoTargetBrightness,
    HardwareBin,
    HighSpeedMode,
    CoolerPowerPerc,
    TargetTemp,
    CoolerOn,
    MonoBin,
    FanOn,
    PatternAdjust,
    AntiDewHeater,
}

impl ASIControlType {
    /// The value the SDK uses for this variant.
    pub open spec fn spec_to_raw(self) -> i32 {
        match self {
            ASIControlType::Gain => abi::ASI_GAIN,
            ASIControlType::Exposure => abi::ASI_EXPOSURE,
            ASIControlType::Gamma => abi::ASI_GAMMA,
            ASIControlType::WbR => abi::ASI_WB_R,
            ASIControlType::WbB => abi::ASI_WB_B,
            ASIControlType::Offset => abi::ASI_OFFSET,
            ASIControlType::BandwidthOverload => abi::ASI_BANDWIDTHOVERLOAD,
            ASIControlType::OverClock => abi::ASI_OVERCLOCK,
            ASIControlType::Temperature => abi::ASI_TEMPERATURE,
            ASIControlType::Flip => abi::ASI_FLIP,
            ASIControlType::AutoMaxGain => abi::ASI_AUTO_MAX_GAIN,
            ASIControlType::AutoMaxExp => abi::ASI_AUTO_MAX_EXP,
            ASIControlType::AutoTargetBrightness => abi::ASI_AUTO_TARGET_BRIGHTNESS,
            ASIControlType::HardwareBin => abi::ASI_HARDWARE_BIN,
            ASIControlType::HighSpeedMode => abi::ASI_HIGH_SPEED_MODE,
            ASIControlType::CoolerPowerPerc => abi::ASI_COOLER_POWER_PERC,
            ASIControlType::TargetTemp => abi::ASI_TARGET_TEMP,
            ASIControlType::CoolerOn => abi::ASI_COOLER_ON,
            ASIControlType::MonoBin => abi::ASI_MONO_BIN,
            ASIControlType::FanOn => abi::ASI_FAN_ON,
            ASIControlType::PatternAdjust => abi::ASI_PATTERN_ADJUST,
            ASIControlType::AntiDewHeater => abi::ASI_ANTI_DEW_HEATER,
        }
    }

    /// Whether the SDK documents `raw` as a value of this enumeration.
    pub open spec fn spec_is_known(raw: i32) -> bool {
        abi::ASI_GAIN <= raw <= abi::ASI_ANTI_DEW_HEATER
    }

    /// The variant that `raw` stands for.
    pub open spec fn spec_from_raw(raw: i32) -> Self {
        choose|v: Self| v.spec_to_raw() == raw
    }

    #[verifier::when_used_as_spec(spec_to_raw)]
    pub fn to_raw(self) -> (raw: i32)
        ensures
            raw == self.spec_to_raw(),
            Self::spec_is_known(raw),
    {
        match self {
            ASIControlType::Gain => abi::ASI_GAIN,
            ASIControlType::Exposure => abi::ASI_EXPOSURE,
            ASIControlType::Gamma => abi::ASI_GAMMA,
            ASIControlType::WbR => abi::ASI_WB_R,
            ASIControlType::WbB => abi::ASI_WB_B,
            ASIControlType::Offset => abi::ASI_OFFSET,
            ASIControlType::BandwidthOverload => abi::ASI_BANDWIDTHOVERLOAD,
            ASIControlType::OverClock => abi::ASI_OVERCLOCK,
            ASIControlType::Temperature => abi::ASI_TEMPERATURE,
            ASIControlType::Flip => abi::ASI_FLIP,
            ASIControlType::AutoMaxGain => abi::ASI_AUTO_MAX_GAIN,
            ASIControlType::AutoMaxExp => abi::ASI_AUTO_MAX_EXP,
            ASIControlType::AutoTargetBrightness => abi::ASI_AUTO_TARGET_BRIGHTNESS,
            ASIControlType::HardwareBin => abi::ASI_HARDWARE_BIN,
            ASIControlType::HighSpeedMode => abi::ASI_HIGH_SPEED_MODE,
            ASIControlType::CoolerPowerPerc => abi::ASI_COOLER_POWER_PERC,
            ASIControlType::TargetTemp => abi::ASI_TARGET_TEMP,
            ASIControlType::CoolerOn => abi::ASI_COOLER_ON,
            ASIControlType::MonoBin => abi::ASI_MONO_BIN,
            ASIControlType::FanOn => abi::ASI_FAN_ON,
            ASIControlType::PatternAdjust => abi::ASI_PATTERN_ADJUST,
            ASIControlType::AntiDewHeater => abi::ASI_ANTI_DEW_HEATER,
        }
    }

    #[verifier::when_used_as_spec(spec_is_known)]
    pub fn is_known(raw: i32) -> (b: bool)
        ensures
            b == Self::spec_is_known(raw),
    {
        abi::ASI_GAIN <= raw && raw <= abi::ASI_ANTI_DEW_HEATER
    }

    /// Decodes a value that the SDK documents.  Any other value means that
    /// the binding and the hardware disagree, and is not accepted.
    pub fn from_raw(control_type: i32) -> (v: Self)
        requires
            Self::spec_is_known(control_type),
        ensures
            v == Self::spec_from_raw(control_type),
            v.spec_to_raw() == control_type,
    {
        let v = match control_type {
            abi::ASI_GAIN => ASIControlType::Gain,
            abi::ASI_EXPOSURE => ASIControlType::Exposure,
            abi::ASI_GAMMA => ASIControlType::Gamma,
            abi::ASI_WB_R => ASIControlType::WbR,
            abi::ASI_WB_B => ASIControlType::WbB,
            abi::ASI_OFFSET => ASIControlType::Offset,
            abi::ASI_BANDWIDTHOVERLOAD => ASIControlType::BandwidthOverload,
            abi::ASI_OVERCLOCK => ASIControlType::OverClock,
            abi::ASI_TEMPERATURE => ASIControlType::Temperature,
            abi::ASI_FLIP => ASIControlType::Flip,
            abi::ASI_AUTO_MAX_GAIN => ASIControlType::AutoMaxGain,
            abi::ASI_AUTO_MAX_EXP => ASIControlType::AutoMaxExp,
            abi::ASI_AUTO_TARGET_BRIGHTNESS => ASIControlType::AutoTargetBrightness,
            abi::ASI_HARDWARE_BIN => ASIControlType::HardwareBin,
            abi::ASI_HIGH_SPEED_MODE => ASIControlType::HighSpeedMode,
            abi::ASI_COOLER_POWER_PERC => ASIControlType::CoolerPowerPerc,
            abi::ASI_TARGET_TEMP => ASIControlType::TargetTemp,
            abi::ASI_COOLER_ON => ASIControlType::CoolerOn,
            abi::ASI_MONO_BIN => ASIControlType::MonoBin,
            abi::ASI_FAN_ON => ASIControlType::FanOn,
            abi::ASI_PATTERN_ADJUST => ASIControlType::PatternAdjust,
            abi::ASI_ANTI_DEW_HEATER => ASIControlType::AntiDewHeater,
            _ => unreached(),
        };
        proof {
            Self::lemma_to_raw_from_raw(v);
        }
        v
    }

    /// Encoding a variant and decoding the result gives the variant back.
    pub proof fn lemma_to_raw_from_raw(v: Self)
        ensures
            Self::spec_is_known(v.spec_to_raw()),
            Self::spec_from_raw(v.spec_to_raw()) == v,
    {
        let back = Self::spec_from_raw(v.spec_to_raw());
        assert(back.spec_to_raw() == v.spec_to_raw());
    }

    /// The documented values are exactly those that some variant encodes
    /// to.
    pub proof fn lemma_known_iff_encoded(raw: i32)
        ensures
            Self::spec_is_known(raw) <==> exists|v: Self| v.spec_to_raw() == raw,
    {
        if Self::spec_is_known(raw) {
            Self::lemma_from_raw_to_raw(raw);
        }
    }

    /// Decoding a documented value and encoding the result gives the value
    /// back.
    pub proof fn lemma_from_raw_to_raw(raw: i32)
        requires
            Self::spec_is_known(raw),
        ensures
            Self::spec_from_raw(raw).spec_to_raw() == raw,
    {
        if raw == abi::ASI_GAIN {
            assert(ASIControlType::Gain.spec_to_raw() == raw);
        } else if raw == abi::ASI_EXPOSURE {
            assert(ASIControlType::Exposure.spec_to_raw() == raw);
        } else if raw == abi::ASI_GAMMA {
            assert(ASIControlType::Gamma.spec_to_raw() == raw);
        } else if raw == abi::ASI_WB_R {
            assert(ASIControlType::WbR.spec_to_raw() == raw);
        } else if raw == abi::ASI_WB_B {
            assert(ASIControlType::WbB.spec_to_raw() == raw);
        } else if raw == abi::ASI_OFFSET {
            assert(ASIControlType::Offset.spec_to_raw() == raw);
        } else if raw == abi::ASI_BANDWIDTHOVERLOAD {
            assert(ASIControlType::BandwidthOverload.spec_to_raw() == raw);
        } else if raw == abi::ASI_OVERCLOCK {
            assert(ASIControlType::OverClock.spec_to_raw() == raw);
        } else if raw == abi::ASI_TEMPERATURE {
            assert(ASIControlType::Temperature.spec_to_raw() == raw);
        } else if raw == abi::ASI_FLIP {
            assert(ASIControlType::Flip.spec_to_raw() == raw);
        } else if raw == abi::ASI_AUTO_MAX_GAIN {
            assert(ASIControlType::AutoMaxGain.spec_to_raw() == raw);
        } else if raw == abi::ASI_AUTO_MAX_EXP {
            assert(ASIControlType::AutoMaxExp.spec_to_raw() == raw);
        } else if raw == abi::ASI_AUTO_TARGET_BRIGHTNESS {
            assert(ASIControlType::AutoTargetBrightness.spec_to_raw() == raw);
        } else if raw == abi::ASI_HARDWARE_BIN {
            assert(ASIControlType::HardwareBin.spec_to_raw() == raw);
        } else if raw == abi::ASI_HIGH_SPEED_MODE {
            assert(ASIControlType::HighSpeedMode.spec_to_raw() == raw);
        } else if raw == abi::ASI_COOLER_POWER_PERC {
            assert(ASIControlType::CoolerPowerPerc.spec_to_raw() == raw);
        } else if raw == abi::ASI_TARGET_TEMP {
            assert(ASIControlType::TargetTemp.spec_to_raw() == raw);
        } else if raw == abi::ASI_COOLER_ON {
            assert(ASIControlType::CoolerOn.spec_to_raw() == raw);
        } else if raw == abi::ASI_MONO_BIN {
            assert(ASIControlType::MonoBin.spec_to_raw() == raw);
        } else if raw == abi::ASI_FAN_ON {
            assert(ASIControlType::FanOn.spec_to_raw() == raw);
        } else if raw == abi::ASI_PATTERN_ADJUST {
            assert(ASIControlType::PatternAdjust.spec_to_raw() == raw);
        } else if raw == abi::ASI_ANTI_DEW_HEATER {
            assert(ASIControlType::AntiDewHeater.spec_to_raw() == raw);
        }
    }
}

/// Where a single exposure stands.
#[derive(Debug, Clone, Copy, PartialEq, Eq, Structural)]
pub enum ASIExposureStatus {
    Idle,
    Working,
    Success,
    Failed,
}

impl ASIExposureStatus {
    /// The value the SDK uses for this variant.
    pub open spec fn spec_to_raw(self) -> i32 {
        match self {
            ASIExposureStatus::Idle => abi::ASI_EXP_IDLE,
            ASIExposureStatus::Working => abi::ASI_EXP_WORKING,
            ASIExposureStatus::Success => abi::ASI_EXP_SUCCESS,
            ASIExposureStatus::Failed => abi::ASI_EXP_FAILED,
        }
    }

    /// Whether the SDK documents `raw` as a value of this enumeration.
    pub open spec fn spec_is_known(raw: i32) -> bool {
        raw == abi::ASI_EXP_IDLE
            || raw == abi::ASI_EXP_WORKING
            || raw == abi::ASI_EXP_SUCCESS
            || raw == abi::ASI_EXP_FAILED
    }

    /// The variant that `raw` stands for.
    pub open spec fn spec_from_raw(raw: i32) -> Self {
        choose|v: Self| v.spec_to_raw() == raw
    }

    #[verifier::when_used_as_spec(spec_to_raw)]
    pub fn to_raw(self) -> (raw: i32)
        ensures
            raw == self.spec_to_raw(),
            Self::spec_is_known(raw),
    {
        match self {
            ASIExposureStatus::Idle => abi::ASI_EXP_IDLE,
            ASIExposureStatus::Working => abi::ASI_EXP_WORKING,
            ASIExposureStatus::Success => abi::ASI_EXP_SUCCESS,
            ASIExposureStatus::Failed => abi::ASI_EXP_FAILED,
        }
    }

    #[verifier::when_used_as_spec(spec_is_known)]
    pub fn is_known(raw: i32) -> (b: bool)
        ensures
            b == Self::spec_is_known(raw),
    {
        raw == abi::ASI_EXP_IDLE
            || raw == abi::ASI_EXP_WORKING
            || raw == abi::ASI_EXP_SUCCESS
            || raw == abi::ASI_EXP_FAILED
    }

    /// Decodes a value that the SDK documents.  Any other value means that
    /// the binding and the hardware disagree, and is not accepted.
    pub fn from_raw(exposure_status: i32) -> (v: Self)
        requires
            Self::spec_is_known(exposure_status),
        ensures
            v == Self::spec_from_raw(exposure_status),
            v.spec_to_raw() == exposure_status,
    {
        let v = match exposure_status {
            abi::ASI_EXP_IDLE => ASIExposureStatus::Idle,
            abi::ASI_EXP_WORKING => ASIExposureStatus::Working,
            abi::ASI_EXP_SUCCESS => ASIExposureStatus::Success,
            abi::ASI_EXP_FAILED => ASIExposureStatus::Failed,
            _ => unreached(),
        };
        proof {
            Self::lemma_to_raw_from_raw(v);
        }
        v
    }

    /// Encoding a variant and decoding the result gives the variant back.
    pub proof fn lemma_to_raw_from_raw(v: Self)
        ensures
            Self::spec_is_known(v.spec_to_raw()),
            Self::spec_from_raw(v.spec_to_raw()) == v,
    {
        let back = Self::spec_from_raw(v.spec_to_raw());
        assert(back.spec_to_raw() == v.spec_to_raw());
    }

    /// The documented values are exactly those that some variant encodes
    /// to.
    pub proof fn lemma_known_iff_encoded(raw: i32)
        ensures
            Self::spec_is_known(raw) <==> exists|v: Self| v.spec_to_raw() == raw,
    {
        if Self::spec_is_known(raw) {
            Self::lemma_from_raw_to_raw(raw);
        }
    }

    /// Decoding a documented value and encoding the result gives the value
    /// back.
    pub proof fn lemma_from_raw_to_raw(raw: i32)
        requires
            Self::spec_is_known(raw),
        ensures
            Self::spec_from_raw(raw).spec_to_raw() == raw,
    {
        if raw == abi::ASI_EXP_IDLE {
            assert(ASIExposureStatus::Idle.spec_to_raw() == raw);
        } else if raw == abi::ASI_EXP_WORKING {
            assert(ASIExposureStatus::Working.spec_to_raw() == raw);
        } else if raw == abi::ASI_EXP_SUCCESS {
            assert(ASIExposureStatus::Success.spec_to_raw() == raw);
        } else if raw == abi::ASI_EXP_FAILED {
            assert(ASIExposureStatus::Failed.spec_to_raw() == raw);
        }
    }
}

} // verus!
