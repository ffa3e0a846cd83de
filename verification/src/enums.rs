//! Enumerations that mirror libobs constants, with their numeric values.
use vstd::prelude::*;

verus! {

/// Describes the video output format used by the OBS video context. Used in `ObsVideoInfo`.
#[derive(Clone, Copy, Debug, PartialEq, Eq, Structural)]
pub enum ObsVideoFormat {
    AYUV,
    BGR3,
    BGRA,
    BGRX,
    I010,
    I210,
    I40A,
    I412,
    I420,
    I422,
    I42A,
    I444,
    NONE,
    NV12,
    P010,
    P216,
    P416,
    R10L,
    RGBA,
    UYVY,
    V210,
    Y800,
    YA2L,
    YUVA,
    YUY2,
    YVYU,
}

impl ObsVideoFormat {
    /// The numeric value that libobs uses for this variant.
    pub open spec fn spec_raw(self) -> u32 {
        match self {
            ObsVideoFormat::AYUV => 16u32,
            ObsVideoFormat::BGR3 => 11u32,
            ObsVideoFormat::BGRA => 7u32,
            ObsVideoFormat::BGRX => 8u32,
            ObsVideoFormat::I010 => 17u32,
            ObsVideoFormat::I210 => 19u32,
            ObsVideoFormat::I40A => 13u32,
            ObsVideoFormat::I412 => 20u32,
            ObsVideoFormat::I420 => 1u32,
            ObsVideoFormat::I422 => 12u32,
            ObsVideoFormat::I42A => 14u32,
            ObsVideoFormat::I444 => 10u32,
            ObsVideoFormat::NONE => 0u32,
            ObsVideoFormat::NV12 => 2u32,
            ObsVideoFormat::P010 => 18u32,
            ObsVideoFormat::P216 => 22u32,
            ObsVideoFormat::P416 => 23u32,
            ObsVideoFormat::R10L => 25u32,
            ObsVideoFormat::RGBA => 6u32,
            ObsVideoFormat::UYVY => 5u32,
            ObsVideoFormat::V210 => 24u32,
            ObsVideoFormat::Y800 => 9u32,
            ObsVideoFormat::YA2L => 21u32,
            ObsVideoFormat::YUVA => 15u32,
            ObsVideoFormat::YUY2 => 4u32,
            ObsVideoFormat::YVYU => 3u32,
        }
    }

    /// The variant that a libobs value stands for, if any.
    pub open spec fn spec_from_raw(value: u32) -> Option<ObsVideoFormat> {
        if value == 16u32 {
            Some(ObsVideoFormat::AYUV)
        } else if value == 11u32 {
            Some(ObsVideoFormat::BGR3)
        } else if value == 7u32 {
            Some(ObsVideoFormat::BGRA)
        } else if value == 8u32 {
            Some(ObsVideoFormat::BGRX)
        } else if value == 17u32 {
            Some(ObsVideoFormat::I010)
        } else if value == 19u32 {
            Some(ObsVideoFormat::I210)
        } else if value == 13u32 {
            Some(ObsVideoFormat::I40A)
        } else if value == 20u32 {
            Some(ObsVideoFormat::I412)
        } else if value == 1u32 {
            Some(ObsVideoFormat::I420)
        } else if value == 12u32 {
            Some(ObsVideoFormat::I422)
        } else if value == 14u32 {
            Some(ObsVideoFormat::I42A)
        } else if value == 10u32 {
            Some(ObsVideoFormat::I444)
        } else if value == 0u32 {
            Some(ObsVideoFormat::NONE)
        } else if value == 2u32 {
            Some(ObsVideoFormat::NV12)
        } else if value == 18u32 {
            Some(ObsVideoFormat::P010)
        } else if value == 22u32 {
            Some(ObsVideoFormat::P216)
        } else if value == 23u32 {
            Some(ObsVideoFormat::P416)
        } else if value == 25u32 {
            Some(ObsVideoFormat::R10L)
        } else if value == 6u32 {
            Some(ObsVideoFormat::RGBA)
        } else if value == 5u32 {
            Some(ObsVideoFormat::UYVY)
        } else if value == 24u32 {
            Some(ObsVideoFormat::V210)
        } else if value == 9u32 {
            Some(ObsVideoFormat::Y800)
        } else if value == 21u32 {
            Some(ObsVideoFormat::YA2L)
        } else if value == 15u32 {
            Some(ObsVideoFormat::YUVA)
        } else if value == 4u32 {
            Some(ObsVideoFormat::YUY2)
        } else if value == 3u32 {
            Some(ObsVideoFormat::YVYU)
        } else {
            None
        }
    }

    /// Returns the numeric value that libobs uses for this variant.
    pub fn to_raw(self) -> (r: u32)
        ensures
            r == self.spec_raw(),
    {
        match self {
            ObsVideoFormat::AYUV => 16,
            ObsVideoFormat::BGR3 => 11,
            ObsVideoFormat::BGRA => 7,
            ObsVideoFormat::BGRX => 8,
            ObsVideoFormat::I010 => 17,
            ObsVideoFormat::I210 => 19,
            ObsVideoFormat::I40A => 13,
            ObsVideoFormat::I412 => 20,
            ObsVideoFormat::I420 => 1,
            ObsVideoFormat::I422 => 12,
            ObsVideoFormat::I42A => 14,
            ObsVideoFormat::I444 => 10,
            ObsVideoFormat::NONE => 0,
            ObsVideoFormat::NV12 => 2,
            ObsVideoFormat::P010 => 18,
            ObsVideoFormat::P216 => 22,
            ObsVideoFormat::P416 => 23,
            ObsVideoFormat::R10L => 25,
            ObsVideoFormat::RGBA => 6,
            ObsVideoFormat::UYVY => 5,
            ObsVideoFormat::V210 => 24,
            ObsVideoFormat::Y800 => 9,
            ObsVideoFormat::YA2L => 21,
            ObsVideoFormat::YUVA => 15,
            ObsVideoFormat::YUY2 => 4,
            ObsVideoFormat::YVYU => 3,
        }
    }

    /// Converts a libobs value back into a variant; `None` when no variant has it.
    pub fn from_raw(value: u32) -> (r: Option<ObsVideoFormat>)
        ensures
            r == ObsVideoFormat::spec_from_raw(value),
    {
        if value == 16 {
            Some(ObsVideoFormat::AYUV)
        } else if value == 11 {
            Some(ObsVideoFormat::BGR3)
        } else if value == 7 {
            Some(ObsVideoFormat::BGRA)
        } else if value == 8 {
            Some(ObsVideoFormat::BGRX)
        } else if value == 17 {
            Some(ObsVideoFormat::I010)
        } else if value == 19 {
            Some(ObsVideoFormat::I210)
        } else if value == 13 {
            Some(ObsVideoFormat::I40A)
        } else if value == 20 {
            Some(ObsVideoFormat::I412)
        } else if value == 1 {
            Some(ObsVideoFormat::I420)
        } else if value == 12 {
            Some(ObsVideoFormat::I422)
        } else if value == 14 {
            Some(ObsVideoFormat::I42A)
        } else if value == 10 {
            Some(ObsVideoFormat::I444)
        } else if value == 0 {
            Some(ObsVideoFormat::NONE)
        } else if value == 2 {
            Some(ObsVideoFormat::NV12)
        } else if value == 18 {
            Some(ObsVideoFormat::P010)
        } else if value == 22 {
            Some(ObsVideoFormat::P216)
        } else if value == 23 {
            Some(ObsVideoFormat::P416)
        } else if value == 25 {
            Some(ObsVideoFormat::R10L)
        } else if value == 6 {
            Some(ObsVideoFormat::RGBA)
        } else if value == 5 {
            Some(ObsVideoFormat::UYVY)
        } else if value == 24 {
            Some(ObsVideoFormat::V210)
        } else if value == 9 {
            Some(ObsVideoFormat::Y800)
        } else if value == 21 {
            Some(ObsVideoFormat::YA2L)
        } else if value == 15 {
            Some(ObsVideoFormat::YUVA)
        } else if value == 4 {
            Some(ObsVideoFormat::YUY2)
        } else if value == 3 {
            Some(ObsVideoFormat::YVYU)
        } else {
            None
        }
    }

    /// The variant's name, as its `Debug` output shows it.
    pub open spec fn spec_name(self) -> Seq<char> {
        match self {
            ObsVideoFormat::AYUV => "AYUV"@,
            ObsVideoFormat::BGR3 => "BGR3"@,
            ObsVideoFormat::BGRA => "BGRA"@,
            ObsVideoFormat::BGRX => "BGRX"@,
            ObsVideoFormat::I010 => "I010"@,
            ObsVideoFormat::I210 => "I210"@,
            ObsVideoFormat::I40A => "I40A"@,
            ObsVideoFormat::I412 => "I412"@,
            ObsVideoFormat::I420 => "I420"@,
            ObsVideoFormat::I422 => "I422"@,
            ObsVideoFormat::I42A => "I42A"@,
            ObsVideoFormat::I444 => "I444"@,
            ObsVideoFormat::NONE => "NONE"@,
            ObsVideoFormat::NV12 => "NV12"@,
            ObsVideoFormat::P010 => "P010"@,
            ObsVideoFormat::P216 => "P216"@,
            ObsVideoFormat::P416 => "P416"@,
            ObsVideoFormat::R10L => "R10L"@,
            ObsVideoFormat::RGBA => "RGBA"@,
            ObsVideoFormat::UYVY => "UYVY"@,
            ObsVideoFormat::V210 => "V210"@,
            ObsVideoFormat::Y800 => "Y800"@,
            ObsVideoFormat::YA2L => "YA2L"@,
            ObsVideoFormat::YUVA => "YUVA"@,
            ObsVideoFormat::YUY2 => "YUY2"@,
            ObsVideoFormat::YVYU => "YVYU"@,
        }
    }

    /// Returns the variant's name.
    pub fn name(self) -> (r: &'static str)
        ensures
            r@ == self.spec_name(),
    {
        match self {
            ObsVideoFormat::AYUV => "AYUV",
            ObsVideoFormat::BGR3 => "BGR3",
            ObsVideoFormat::BGRA => "BGRA",
            ObsVideoFormat::BGRX => "BGRX",
            ObsVideoFormat::I010 => "I010",
            ObsVideoFormat::I210 => "I210",
            ObsVideoFormat::I40A => "I40A",
            ObsVideoFormat::I412 => "I412",
            ObsVideoFormat::I420 => "I420",
            ObsVideoFormat::I422 => "I422",
            ObsVideoFormat::I42A => "I42A",
            ObsVideoFormat::I444 => "I444",
            ObsVideoFormat::NONE => "NONE",
            ObsVideoFormat::NV12 => "NV12",
            ObsVideoFormat::P010 => "P010",
            ObsVideoFormat::P216 => "P216",
            ObsVideoFormat::P416 => "P416",
            ObsVideoFormat::R10L => "R10L",
            ObsVideoFormat::RGBA => "RGBA",
            ObsVideoFormat::UYVY => "UYVY",
            ObsVideoFormat::V210 => "V210",
            ObsVideoFormat::Y800 => "Y800",
            ObsVideoFormat::YA2L => "YA2L",
            ObsVideoFormat::YUVA => "YUVA",
            ObsVideoFormat::YUY2 => "YUY2",
            ObsVideoFormat::YVYU => "YVYU",
        }
    }
}

/// Turning a ObsVideoFormat into its libobs value and back gives the same variant,
/// and a libobs value is only ever read back as the variant that has that value.
pub proof fn lemma_video_format_raw_roundtrip(e: ObsVideoFormat, value: u32)
    ensures
        ObsVideoFormat::spec_from_raw(e.spec_raw()) == Some(e),
        ObsVideoFormat::spec_from_raw(value) matches Some(f) ==> f.spec_raw() == value,
{
}

/// Describes the colorspace that an OBS video context uses. Used in `ObsVideoInfo`.
#[derive(Clone, Copy, Debug, PartialEq, Eq, Structural)]
pub enum ObsColorspace {
    CS2100HLG,
    CS2100PQ,
    CS601,
    CS709,
    Default,
    CSRGB,
}

impl ObsColorspace {
    /// The numeric value that libobs uses for this variant.
    pub open spec fn spec_raw(self) -> u32 {
        match self {
            ObsColorspace::CS2100HLG => 5u32,
            ObsColorspace::CS2100PQ => 4u32,
            ObsColorspace::CS601 => 1u32,
            ObsColorspace::CS709 => 2u32,
            ObsColorspace::Default => 0u32,
            ObsColorspace::CSRGB => 3u32,
        }
    }

    /// The variant that a libobs value stands for, if any.
    pub open spec fn spec_from_raw(value: u32) -> Option<ObsColorspace> {
        if value == 5u32 {
            Some(ObsColorspace::CS2100HLG)
        } else if value == 4u32 {
            Some(ObsColorspace::CS2100PQ)
        } else if value == 1u32 {
            Some(ObsColorspace::CS601)
        } else if value == 2u32 {
            Some(ObsColorspace::CS709)
        } else if value == 0u32 {
            Some(ObsColorspace::Default)
        } else if value == 3u32 {
            Some(ObsColorspace::CSRGB)
        } else {
            None
        }
    }

    /// Returns the numeric value that libobs uses for this variant.
    pub fn to_raw(self) -> (r: u32)
        ensures
            r == self.spec_raw(),
    {
        match self {
            ObsColorspace::CS2100HLG => 5,
            ObsColorspace::CS2100PQ => 4,
            ObsColorspace::CS601 => 1,
            ObsColorspace::CS709 => 2,
            ObsColorspace::Default => 0,
            ObsColorspace::CSRGB => 3,
        }
    }

    /// Converts a libobs value back into a variant; `None` when no variant has it.
    pub fn from_raw(value: u32) -> (r: Option<ObsColorspace>)
        ensures
            r == ObsColorspace::spec_from_raw(value),
    {
        if value == 5 {
            Some(ObsColorspace::CS2100HLG)
        } else if value == 4 {
            Some(ObsColorspace::CS2100PQ)
        } else if value == 1 {
            Some(ObsColorspace::CS601)
        } else if value == 2 {
            Some(ObsColorspace::CS709)
        } else if value == 0 {
            Some(ObsColorspace::Default)
        } else if value == 3 {
            Some(ObsColorspace::CSRGB)
        } else {
            None
        }
    }

    /// The variant's name, as its `Debug` output shows it.
    pub open spec fn spec_name(self) -> Seq<char> {
        match self {
            ObsColorspace::CS2100HLG => "CS2100HLG"@,
            ObsColorspace::CS2100PQ => "CS2100PQ"@,
            ObsColorspace::CS601 => "CS601"@,
            ObsColorspace::CS709 => "CS709"@,
            ObsColorspace::Default => "Default"@,
            ObsColorspace::CSRGB => "CSRGB"@,
        }
    }

    /// Returns the variant's name.
    pub fn name(self) -> (r: &'static str)
        ensures
            r@ == self.spec_name(),
    {
        match self {
            ObsColorspace::CS2100HLG => "CS2100HLG",
            ObsColorspace::CS2100PQ => "CS2100PQ",
            ObsColorspace::CS601 => "CS601",
            ObsColorspace::CS709 => "CS709",
            ObsColorspace::Default => "Default",
            ObsColorspace::CSRGB => "CSRGB",
        }
    }
}

/// Turning a ObsColorspace into its libobs value and back gives the same variant,
/// and a libobs value is only ever read back as the variant that has that value.
pub proof fn lemma_colorspace_raw_roundtrip(e: ObsColorspace, value: u32)
    ensures
        ObsColorspace::spec_from_raw(e.spec_raw()) == Some(e),
        ObsColorspace::spec_from_raw(value) matches Some(f) ==> f.spec_raw() == value,
{
}

/// Describes the minimum and maximum color levels that an OBS video context is allowed to encode. Used in `ObsVideoInfo`.
#[derive(Clone, Copy, Debug, PartialEq, Eq, Structural)]
pub enum ObsVideoRange {
    Default,
    Partial,
    Full,
}

impl ObsVideoRange {
    /// The numeric value that libobs uses for this variant.
    pub open spec fn spec_raw(self) -> u32 {
        match self {
            ObsVideoRange::Default => 0u32,
            ObsVideoRange::Partial => 1u32,
            ObsVideoRange::Full => 2u32,
        }
    }

    /// The variant that a libobs value stands for, if any.
    pub open spec fn spec_from_raw(value: u32) -> Option<ObsVideoRange> {
        if value == 0u32 {
            Some(ObsVideoRange::Default)
        } else if value == 1u32 {
            Some(ObsVideoRange::Partial)
        } else if value == 2u32 {
            Some(ObsVideoRange::Full)
        } else {
            None
        }
    }

    /// Returns the numeric value that libobs uses for this variant.
    pub fn to_raw(self) -> (r: u32)
        ensures
            r == self.spec_raw(),
    {
        match self {
            ObsVideoRange::Default => 0,
            ObsVideoRange::Partial => 1,
            ObsVideoRange::Full => 2,
        }
    }

    /// Converts a libobs value back into a variant; `None` when no variant has it.
    pub fn from_raw(value: u32) -> (r: Option<ObsVideoRange>)
        ensures
            r == ObsVideoRange::spec_from_raw(value),
    {
        if value == 0 {
            Some(ObsVideoRange::Default)
        } else if value == 1 {
            Some(ObsVideoRange::Partial)
        } else if value == 2 {
            Some(ObsVideoRange::Full)
        } else {
            None
        }
    }

    /// The variant's name, as its `Debug` output shows it.
    pub open spec fn spec_name(self) -> Seq<char> {
        match self {
            ObsVideoRange::Default => "Default"@,
            ObsVideoRange::Partial => "Partial"@,
            ObsVideoRange::Full => "Full"@,
        }
    }

    /// Returns the variant's name.
    pub fn name(self) -> (r: &'static str)
        ensures
            r@ == self.spec_name(),
    {
        match self {
            ObsVideoRange::Default => "Default",
            ObsVideoRange::Partial => "Partial",
            ObsVideoRange::Full => "Full",
        }
    }
}

/// Turning a ObsVideoRange into its libobs value and back gives the same variant,
/// and a libobs value is only ever read back as the variant that has that value.
pub proof fn lemma_video_range_raw_roundtrip(e: ObsVideoRange, value: u32)
    ensures
        ObsVideoRange::spec_from_raw(e.spec_raw()) == Some(e),
        ObsVideoRange::spec_from_raw(value) matches Some(f) ==> f.spec_raw() == value,
{
}

/// Describes how libobs should reconcile non-matching base and output resolutions when creating a video context.
#[derive(Clone, Copy, Debug, PartialEq, Eq, Structural)]
pub enum ObsScaleType {
    Area,
    Bicubic,
    Bilinear,
    Disable,
    Lanczos,
    Point,
}

impl ObsScaleType {
    /// The numeric value that libobs uses for this variant.
    pub open spec fn spec_raw(self) -> u32 {
        match self {
            ObsScaleType::Area => 5u32,
            ObsScaleType::Bicubic => 2u32,
            ObsScaleType::Bilinear => 3u32,
            ObsScaleType::Disable => 0u32,
            ObsScaleType::Lanczos => 4u32,
            ObsScaleType::Point => 1u32,
        }
    }

    /// The variant that a libobs value stands for, if any.
    pub open spec fn spec_from_raw(value: u32) -> Option<ObsScaleType> {
        if value == 5u32 {
            Some(ObsScaleType::Area)
        } else if value == 2u32 {
            Some(ObsScaleType::Bicubic)
        } else if value == 3u32 {
            Some(ObsScaleType::Bilinear)
        } else if value == 0u32 {
            Some(ObsScaleType::Disable)
        } else if value == 4u32 {
            Some(ObsScaleType::Lanczos)
        } else if value == 1u32 {
            Some(ObsScaleType::Point)
        } else {
            None
        }
    }

    /// Returns the numeric value that libobs uses for this variant.
    pub fn to_raw(self) -> (r: u32)
        ensures
            r == self.spec_raw(),
    {
        match self {
            ObsScaleType::Area => 5,
            ObsScaleType::Bicubic => 2,
            ObsScaleType::Bilinear => 3,
            ObsScaleType::Disable => 0,
            ObsScaleType::Lanczos => 4,
            ObsScaleType::Point => 1,
        }
    }

    /// Converts a libobs value back into a variant; `None` when no variant has it.
    pub fn from_raw(value: u32) -> (r: Option<ObsScaleType>)
        ensures
            r == ObsScaleType::spec_from_raw(value),
    {
        if value == 5 {
            Some(ObsScaleType::Area)
        } else if value == 2 {
            Some(ObsScaleType::Bicubic)
        } else if value == 3 {
            Some(ObsScaleType::Bilinear)
        } else if value == 0 {
            Some(ObsScaleType::Disable)
        } else if value == 4 {
            Some(ObsScaleType::Lanczos)
        } else if value == 1 {
            Some(ObsScaleType::Point)
        } else {
            None
        }
    }

    /// The variant's name, as its `Debug` output shows it.
    pub open spec fn spec_name(self) -> Seq<char> {
        match self {
            ObsScaleType::Area => "Area"@,
            ObsScaleType::Bicubic => "Bicubic"@,
            ObsScaleType::Bilinear => "Bilinear"@,
            ObsScaleType::Disable => "Disable"@,
            ObsScaleType::Lanczos => "Lanczos"@,
            ObsScaleType::Point => "Point"@,
        }
    }

    /// Returns the variant's name.
    pub fn name(self) -> (r: &'static str)
        ensures
            r@ == self.spec_name(),
    {
        match self {
            ObsScaleType::Area => "Area",
            ObsScaleType::Bicubic => "Bicubic",
            ObsScaleType::Bilinear => "Bilinear",
            ObsScaleType::Disable => "Disable",
            ObsScaleType::Lanczos => "Lanczos",
            ObsScaleType::Point => "Point",
        }
    }
}

/// Turning a ObsScaleType into its libobs value and back gives the same variant,
/// and a libobs value is only ever read back as the variant that has that value.
pub proof fn lemma_scale_type_raw_roundtrip(e: ObsScaleType, value: u32)
    ensures
        ObsScaleType::spec_from_raw(e.spec_raw()) == Some(e),
        ObsScaleType::spec_from_raw(value) matches Some(f) ==> f.spec_raw() == value,
{
}

/// Status types returned after attempting to reset the OBS video context using the function `obs_reset_video`.
#[derive(Clone, Copy, Debug, PartialEq, Eq, Structural)]
pub enum ObsResetVideoStatus {
    Success,
    NotSupported,
    InvalidParameter,
    CurrentlyActive,
    Failure,
}

impl ObsResetVideoStatus {
    /// The numeric value that libobs uses for this variant.
    pub open spec fn spec_raw(self) -> i32 {
        match self {
            ObsResetVideoStatus::Success => 0i32,
            ObsResetVideoStatus::NotSupported => -2i32,
            ObsResetVideoStatus::InvalidParameter => -3i32,
            ObsResetVideoStatus::CurrentlyActive => -4i32,
            ObsResetVideoStatus::Failure => -1i32,
        }
    }

    /// The variant that a libobs value stands for, if any.
    pub open spec fn spec_from_raw(value: i32) -> Option<ObsResetVideoStatus> {
        if value == 0i32 {
            Some(ObsResetVideoStatus::Success)
        } else if value == -2i32 {
            Some(ObsResetVideoStatus::NotSupported)
        } else if value == -3i32 {
            Some(ObsResetVideoStatus::InvalidParameter)
        } else if value == -4i32 {
            Some(ObsResetVideoStatus::CurrentlyActive)
        } else if value == -1i32 {
            Some(ObsResetVideoStatus::Failure)
        } else {
            None
        }
    }

    /// Returns the numeric value that libobs uses for this variant.
    pub fn to_raw(self) -> (r: i32)
        ensures
            r == self.spec_raw(),
    {
        match self {
            ObsResetVideoStatus::Success => 0,
            ObsResetVideoStatus::NotSupported => -2,
            ObsResetVideoStatus::InvalidParameter => -3,
            ObsResetVideoStatus::CurrentlyActive => -4,
            ObsResetVideoStatus::Failure => -1,
        }
    }

    /// Converts a libobs value back into a variant; `None` when no variant has it.
    pub fn from_raw(value: i32) -> (r: Option<ObsResetVideoStatus>)
        ensures
            r == ObsResetVideoStatus::spec_from_raw(value),
    {
        if value == 0 {
            Some(ObsResetVideoStatus::Success)
        } else if value == -2 {
            Some(ObsResetVideoStatus::NotSupported)
        } else if value == -3 {
            Some(ObsResetVideoStatus::InvalidParameter)
        } else if value == -4 {
            Some(ObsResetVideoStatus::CurrentlyActive)
        } else if value == -1 {
            Some(ObsResetVideoStatus::Failure)
        } else {
            None
        }
    }

    /// The variant's name, as its `Debug` output shows it.
    pub open spec fn spec_name(self) -> Seq<char> {
        match self {
            ObsResetVideoStatus::Success => "Success"@,
            ObsResetVideoStatus::NotSupported => "NotSupported"@,
            ObsResetVideoStatus::InvalidParameter => "InvalidParameter"@,
            ObsResetVideoStatus::CurrentlyActive => "CurrentlyActive"@,
            ObsResetVideoStatus::Failure => "Failure"@,
        }
    }

    /// Returns the variant's name.
    pub fn name(self) -> (r: &'static str)
        ensures
            r@ == self.spec_name(),
    {
        match self {
            ObsResetVideoStatus::Success => "Success",
            ObsResetVideoStatus::NotSupported => "NotSupported",
            ObsResetVideoStatus::InvalidParameter => "InvalidParameter",
            ObsResetVideoStatus::CurrentlyActive => "CurrentlyActive",
            ObsResetVideoStatus::Failure => "Failure",
        }
    }
}

/// Turning a ObsResetVideoStatus into its libobs value and back gives the same variant,
/// and a libobs value is only ever read back as the variant that has that value.
pub proof fn lemma_reset_video_status_raw_roundtrip(e: ObsResetVideoStatus, value: i32)
    ensures
        ObsResetVideoStatus::spec_from_raw(e.spec_raw()) == Some(e),
        ObsResetVideoStatus::spec_from_raw(value) matches Some(f) ==> f.spec_raw() == value,
{
}

/// Audio samples per second options that are supported by libobs.
#[derive(Clone, Copy, Debug, PartialEq, Eq, Structural)]
pub enum ObsSamplesPerSecond {
    F44100,
    F48000,
}

impl ObsSamplesPerSecond {
    /// The numeric value that libobs uses for this variant.
    pub open spec fn spec_raw(self) -> u32 {
        match self {
            ObsSamplesPerSecond::F44100 => 44100u32,
            ObsSamplesPerSecond::F48000 => 48000u32,
        }
    }

    /// The variant that a libobs value stands for, if any.
    pub open spec fn spec_from_raw(value: u32) -> Option<ObsSamplesPerSecond> {
        if value == 44100u32 {
            Some(ObsSamplesPerSecond::F44100)
        } else if value == 48000u32 {
            Some(ObsSamplesPerSecond::F48000)
        } else {
            None
        }
    }

    /// Returns the numeric value that libobs uses for this variant.
    pub fn to_raw(self) -> (r: u32)
        ensures
            r == self.spec_raw(),
    {
        match self {
            ObsSamplesPerSecond::F44100 => 44100,
            ObsSamplesPerSecond::F48000 => 48000,
        }
    }

    /// Converts a libobs value back into a variant; `None` when no variant has it.
    pub fn from_raw(value: u32) -> (r: Option<ObsSamplesPerSecond>)
        ensures
            r == ObsSamplesPerSecond::spec_from_raw(value),
    {
        if value == 44100 {
            Some(ObsSamplesPerSecond::F44100)
        } else if value == 48000 {
            Some(ObsSamplesPerSecond::F48000)
        } else {
            None
        }
    }

    /// The variant's name, as its `Debug` output shows it.
    pub open spec fn spec_name(self) -> Seq<char> {
        match self {
            ObsSamplesPerSecond::F44100 => "F44100"@,
            ObsSamplesPerSecond::F48000 => "F48000"@,
        }
    }

    /// Returns the variant's name.
    pub fn name(self) -> (r: &'static str)
        ensures
            r@ == self.spec_name(),
    {
        match self {
            ObsSamplesPerSecond::F44100 => "F44100",
            ObsSamplesPerSecond::F48000 => "F48000",
        }
    }
}

/// Turning a ObsSamplesPerSecond into its libobs value and back gives the same variant,
/// and a libobs value is only ever read back as the variant that has that value.
pub proof fn lemma_samples_per_second_raw_roundtrip(e: ObsSamplesPerSecond, value: u32)
    ensures
        ObsSamplesPerSecond::spec_from_raw(e.spec_raw()) == Some(e),
        ObsSamplesPerSecond::spec_from_raw(value) matches Some(f) ==> f.spec_raw() == value,
{
}

/// Speaker layouts that libobs supports for its audio context.
#[derive(Clone, Copy, Debug, PartialEq, Eq, Structural)]
pub enum ObsSpeakerLayout {
    S2Point1,
    S4Point0,
    S4Point1,
    S5Point1,
    S7Point1,
    Mono,
    Stereo,
    Unknown,
}

impl ObsSpeakerLayout {
    /// The numeric value that libobs uses for this variant.
    pub open spec fn spec_raw(self) -> u32 {
        match self {
            ObsSpeakerLayout::S2Point1 => 3u32,
            ObsSpeakerLayout::S4Point0 => 4u32,
            ObsSpeakerLayout::S4Point1 => 5u32,
            ObsSpeakerLayout::S5Point1 => 6u32,
            ObsSpeakerLayout::S7Point1 => 8u32,
            ObsSpeakerLayout::Mono => 1u32,
            ObsSpeakerLayout::Stereo => 2u32,
            ObsSpeakerLayout::Unknown => 0u32,
        }
    }

    /// The variant that a libobs value stands for, if any.
    pub open spec fn spec_from_raw(value: u32) -> Option<ObsSpeakerLayout> {
        if value == 3u32 {
            Some(ObsSpeakerLayout::S2Point1)
        } else if value == 4u32 {
            Some(ObsSpeakerLayout::S4Point0)
        } else if value == 5u32 {
            Some(ObsSpeakerLayout::S4Point1)
        } else if value == 6u32 {
            Some(ObsSpeakerLayout::S5Point1)
        } else if value == 8u32 {
            Some(ObsSpeakerLayout::S7Point1)
        } else if value == 1u32 {
            Some(ObsSpeakerLayout::Mono)
        } else if value == 2u32 {
            Some(ObsSpeakerLayout::Stereo)
        } else if value == 0u32 {
            Some(ObsSpeakerLayout::Unknown)
        } else {
            None
        }
    }

    /// Returns the numeric value that libobs uses for this variant.
    pub fn to_raw(self) -> (r: u32)
        ensures
            r == self.spec_raw(),
    {
        match self {
            ObsSpeakerLayout::S2Point1 => 3,
            ObsSpeakerLayout::S4Point0 => 4,
            ObsSpeakerLayout::S4Point1 => 5,
            ObsSpeakerLayout::S5Point1 => 6,
            ObsSpeakerLayout::S7Point1 => 8,
            ObsSpeakerLayout::Mono => 1,
            ObsSpeakerLayout::Stereo => 2,
            ObsSpeakerLayout::Unknown => 0,
        }
    }

    /// Converts a libobs value back into a variant; `None` when no variant has it.
    pub fn from_raw(value: u32) -> (r: Option<ObsSpeakerLayout>)
        ensures
            r == ObsSpeakerLayout::spec_from_raw(value),
    {
        if value == 3 {
            Some(ObsSpeakerLayout::S2Point1)
        } else if value == 4 {
            Some(ObsSpeakerLayout::S4Point0)
        } else if value == 5 {
            Some(ObsSpeakerLayout::S4Point1)
        } else if value == 6 {
            Some(ObsSpeakerLayout::S5Point1)
        } else if value == 8 {
            Some(ObsSpeakerLayout::S7Point1)
        } else if value == 1 {
            Some(ObsSpeakerLayout::Mono)
        } else if value == 2 {
            Some(ObsSpeakerLayout::Stereo)
        } else if value == 0 {
            Some(ObsSpeakerLayout::Unknown)
        } else {
            None
        }
    }

    /// The variant's name, as its `Debug` output shows it.
    pub open spec fn spec_name(self) -> Seq<char> {
        match self {
            ObsSpeakerLayout::S2Point1 => "S2Point1"@,
            ObsSpeakerLayout::S4Point0 => "S4Point0"@,
            ObsSpeakerLayout::S4Point1 => "S4Point1"@,
            ObsSpeakerLayout::S5Point1 => "S5Point1"@,
            ObsSpeakerLayout::S7Point1 => "S7Point1"@,
            ObsSpeakerLayout::Mono => "Mono"@,
            ObsSpeakerLayout::Stereo => "Stereo"@,
            ObsSpeakerLayout::Unknown => "Unknown"@,
        }
    }

    /// Returns the variant's name.
    pub fn name(self) -> (r: &'static str)
        ensures
            r@ == self.spec_name(),
    {
        match self {
            ObsSpeakerLayout::S2Point1 => "S2Point1",
            ObsSpeakerLayout::S4Point0 => "S4Point0",
            ObsSpeakerLayout::S4Point1 => "S4Point1",
            ObsSpeakerLayout::S5Point1 => "S5Point1",
            ObsSpeakerLayout::S7Point1 => "S7Point1",
            ObsSpeakerLayout::Mono => "Mono",
            ObsSpeakerLayout::Stereo => "Stereo",
            ObsSpeakerLayout::Unknown => "Unknown",
        }
    }
}

/// Turning a ObsSpeakerLayout into its libobs value and back gives the same variant,
/// and a libobs value is only ever read back as the variant that has that value.
pub proof fn lemma_speaker_layout_raw_roundtrip(e: ObsSpeakerLayout, value: u32)
    ensures
        ObsSpeakerLayout::spec_from_raw(e.spec_raw()) == Some(e),
        ObsSpeakerLayout::spec_from_raw(value) matches Some(f) ==> f.spec_raw() == value,
{
}

/// Whether an encoder encodes video or audio.
#[derive(Clone, Copy, Debug, PartialEq, Eq, Structural)]
pub enum ObsEncoderType {
    Video,
    Audio,
}

impl ObsEncoderType {
    /// The numeric value that libobs uses for this variant.
    pub open spec fn spec_raw(self) -> u32 {
        match self {
            ObsEncoderType::Video => 1u32,
            ObsEncoderType::Audio => 0u32,
        }
    }

    /// The variant that a libobs value stands for, if any.
    pub open spec fn spec_from_raw(value: u32) -> Option<ObsEncoderType> {
        if value == 1u32 {
            Some(ObsEncoderType::Video)
        } else if value == 0u32 {
            Some(ObsEncoderType::Audio)
        } else {
            None
        }
    }

    /// Returns the numeric value that libobs uses for this variant.
    pub fn to_raw(self) -> (r: u32)
        ensures
            r == self.spec_raw(),
    {
        match self {
            ObsEncoderType::Video => 1,
            ObsEncoderType::Audio => 0,
        }
    }

    /// Converts a libobs value back into a variant; `None` when no variant has it.
    pub fn from_raw(value: u32) -> (r: Option<ObsEncoderType>)
        ensures
            r == ObsEncoderType::spec_from_raw(value),
    {
        if value == 1 {
            Some(ObsEncoderType::Video)
        } else if value == 0 {
            Some(ObsEncoderType::Audio)
        } else {
            None
        }
    }

    /// The variant's name, as its `Debug` output shows it.
    pub open spec fn spec_name(self) -> Seq<char> {
        match self {
            ObsEncoderType::Video => "Video"@,
            ObsEncoderType::Audio => "Audio"@,
        }
    }

    /// Returns the variant's name.
    pub fn name(self) -> (r: &'static str)
        ensures
            r@ == self.spec_name(),
    {
        match self {
            ObsEncoderType::Video => "Video",
            ObsEncoderType::Audio => "Audio",
        }
    }
}

/// Turning a ObsEncoderType into its libobs value and back gives the same variant,
/// and a libobs value is only ever read back as the variant that has that value.
pub proof fn lemma_encoder_type_raw_roundtrip(e: ObsEncoderType, value: u32)
    ensures
        ObsEncoderType::spec_from_raw(e.spec_raw()) == Some(e),
        ObsEncoderType::spec_from_raw(value) matches Some(f) ==> f.spec_raw() == value,
{
}

/// Severity of a message that libobs logs.
#[derive(Clone, Copy, Debug, PartialEq, Eq, Structural)]
pub enum ObsLogLevel {
    Error,
    Warning,
    Info,
    Debug,
}

impl ObsLogLevel {
    /// The numeric value that libobs uses for this variant.
    pub open spec fn spec_raw(self) -> i32 {
        match self {
            ObsLogLevel::Error => 100i32,
            ObsLogLevel::Warning => 200i32,
            ObsLogLevel::Info => 300i32,
            ObsLogLevel::Debug => 400i32,
        }
    }

    /// The variant that a libobs value stands for, if any.
    pub open spec fn spec_from_raw(value: i32) -> Option<ObsLogLevel> {
        if value == 100i32 {
            Some(ObsLogLevel::Error)
        } else if value == 200i32 {
            Some(ObsLogLevel::Warning)
        } else if value == 300i32 {
            Some(ObsLogLevel::Info)
        } else if value == 400i32 {
            Some(ObsLogLevel::Debug)
        } else {
            None
        }
    }

    /// Returns the numeric value that libobs uses for this variant.
    pub fn to_raw(self) -> (r: i32)
        ensures
            r == self.spec_raw(),
    {
        match self {
            ObsLogLevel::Error => 100,
            ObsLogLevel::Warning => 200,
            ObsLogLevel::Info => 300,
            ObsLogLevel::Debug => 400,
        }
    }

    /// Converts a libobs value back into a variant; `None` when no variant has it.
    pub fn from_raw(value: i32) -> (r: Option<ObsLogLevel>)
        ensures
            r == ObsLogLevel::spec_from_raw(value),
    {
        if value == 100 {
            Some(ObsLogLevel::Error)
        } else if value == 200 {
            Some(ObsLogLevel::Warning)
        } else if value == 300 {
            Some(ObsLogLevel::Info)
        } else if value == 400 {
            Some(ObsLogLevel::Debug)
        } else {
            None
        }
    }

    /// The variant's name, as its `Debug` output shows it.
    pub open spec fn spec_name(self) -> Seq<char> {
        match self {
            ObsLogLevel::Error => "Error"@,
            ObsLogLevel::Warning => "Warning"@,
            ObsLogLevel::Info => "Info"@,
            ObsLogLevel::Debug => "Debug"@,
        }
    }

    /// Returns the variant's name.
    pub fn name(self) -> (r: &'static str)
        ensures
            r@ == self.spec_name(),
    {
        match self {
            ObsLogLevel::Error => "Error",
            ObsLogLevel::Warning => "Warning",
            ObsLogLevel::Info => "Info",
            ObsLogLevel::Debug => "Debug",
        }
    }
}

/// Turning a ObsLogLevel into its libobs value and back gives the same variant,
/// and a libobs value is only ever read back as the variant that has that value.
pub proof fn lemma_log_level_raw_roundtrip(e: ObsLogLevel, value: i32)
    ensures
        ObsLogLevel::spec_from_raw(e.spec_raw()) == Some(e),
        ObsLogLevel::spec_from_raw(value) matches Some(f) ==> f.spec_raw() == value,
{
}

/// Used with scene items to indicate the type of bounds to use for scene items. Mostly determines how the image will be scaled within those bounds, or whether to use bounds at all.
#[derive(Clone, Copy, Debug, PartialEq, Eq, Structural)]
pub enum ObsBounds {
    NoBounds,
    Stretch,
    ScaleInner,
    ScaleOuter,
    ScaleToWidth,
    ScaleToHeight,
    MaxOnly,
}

impl ObsBounds {
    /// The numeric value that libobs uses for this variant.
    pub open spec fn spec_raw(self) -> u32 {
        match self {
            ObsBounds::NoBounds => 0u32,
            ObsBounds::Stretch => 1u32,
            ObsBounds::ScaleInner => 2u32,
            ObsBounds::ScaleOuter => 3u32,
            ObsBounds::ScaleToWidth => 4u32,
            ObsBounds::ScaleToHeight => 5u32,
            ObsBounds::MaxOnly => 6u32,
        }
    }

    /// The variant that a libobs value stands for, if any.
    pub open spec fn spec_from_raw(value: u32) -> Option<ObsBounds> {
        if value == 0u32 {
            Some(ObsBounds::NoBounds)
        } else if value == 1u32 {
            Some(ObsBounds::Stretch)
        } else if value == 2u32 {
            Some(ObsBounds::ScaleInner)
        } else if value == 3u32 {
            Some(ObsBounds::ScaleOuter)
        } else if value == 4u32 {
            Some(ObsBounds::ScaleToWidth)
        } else if value == 5u32 {
            Some(ObsBounds::ScaleToHeight)
        } else if value == 6u32 {
            Some(ObsBounds::MaxOnly)
        } else {
            None
        }
    }

    /// Returns the numeric value that libobs uses for this variant.
    pub fn to_raw(self) -> (r: u32)
        ensures
            r == self.spec_raw(),
    {
        match self {
            ObsBounds::NoBounds => 0,
            ObsBounds::Stretch => 1,
            ObsBounds::ScaleInner => 2,
            ObsBounds::ScaleOuter => 3,
            ObsBounds::ScaleToWidth => 4,
            ObsBounds::ScaleToHeight => 5,
            ObsBounds::MaxOnly => 6,
        }
    }

    /// Converts a libobs value back into a variant; `None` when no variant has it.
    pub fn from_raw(value: u32) -> (r: Option<ObsBounds>)
        ensures
            r == ObsBounds::spec_from_raw(value),
    {
        if value == 0 {
            Some(ObsBounds::NoBounds)
        } else if value == 1 {
            Some(ObsBounds::Stretch)
        } else if value == 2 {
            Some(ObsBounds::ScaleInner)
        } else if value == 3 {
            Some(ObsBounds::ScaleOuter)
        } else if value == 4 {
            Some(ObsBounds::ScaleToWidth)
        } else if value == 5 {
            Some(ObsBounds::ScaleToHeight)
        } else if value == 6 {
            Some(ObsBounds::MaxOnly)
        } else {
            None
        }
    }

    /// The variant's name, as its `Debug` output shows it.
    pub open spec fn spec_name(self) -> Seq<char> {
        match self {
            ObsBounds::NoBounds => "NoBounds"@,
            ObsBounds::Stretch => "Stretch"@,
            ObsBounds::ScaleInner => "ScaleInner"@,
            ObsBounds::ScaleOuter => "ScaleOuter"@,
            ObsBounds::ScaleToWidth => "ScaleToWidth"@,
            ObsBounds::ScaleToHeight => "ScaleToHeight"@,
            ObsBounds::MaxOnly => "MaxOnly"@,
        }
    }

    /// Returns the variant's name.
    pub fn name(self) -> (r: &'static str)
        ensures
            r@ == self.spec_name(),
    {
        match self {
            ObsBounds::NoBounds => "NoBounds",
            ObsBounds::Stretch => "Stretch",
            ObsBounds::ScaleInner => "ScaleInner",
            ObsBounds::ScaleOuter => "ScaleOuter",
            ObsBounds::ScaleToWidth => "ScaleToWidth",
            ObsBounds::ScaleToHeight => "ScaleToHeight",
            ObsBounds::MaxOnly => "MaxOnly",
        }
    }
}

/// Turning a ObsBounds into its libobs value and back gives the same variant,
/// and a libobs value is only ever read back as the variant that has that value.
pub proof fn lemma_bounds_raw_roundtrip(e: ObsBounds, value: u32)
    ensures
        ObsBounds::spec_from_raw(e.spec_raw()) == Some(e),
        ObsBounds::spec_from_raw(value) matches Some(f) ==> f.spec_raw() == value,
{
}

/// Describes which graphics backend should be used in the OBS video context.
/// Used in `ObsVideoInfo`.
#[derive(Clone, Copy, Debug, PartialEq, Eq, Structural)]
pub enum ObsGraphicsModule {
    OpenGL,
    DirectX11,
}

impl ObsGraphicsModule {
    /// The name of the libobs graphics module that implements this backend.
    pub open spec fn spec_module_name(self) -> Seq<char> {
        match self {
            ObsGraphicsModule::OpenGL => "libobs-opengl"@,
            ObsGraphicsModule::DirectX11 => "libobs-d3d11.dll"@,
        }
    }

    /// Returns the name of the libobs graphics module that implements this backend.
    pub fn module_name(self) -> (r: &'static str)
        ensures
            r@ == self.spec_module_name(),
    {
        match self {
            ObsGraphicsModule::OpenGL => "libobs-opengl",
            ObsGraphicsModule::DirectX11 => "libobs-d3d11.dll",
        }
    }

    /// The text shown for this backend: the name of its graphics module.
    pub fn to_string(self) -> (r: String)
        ensures
            r@ == self.spec_module_name(),
    {
        self.module_name().to_owned()
    }
}

/// Reasons for which an output stopped, as the `stop` signal of an output reports them.
#[derive(Clone, Copy, Debug, PartialEq, Eq, Structural)]
pub enum ObsOutputStopSignal {
    /// Successfully stopped
    Success,
    /// The specified path was invalid
    BadPath,
    /// Failed to connect to a server
    ConnectFailed,
    /// Invalid stream path
    InvalidStream,
    /// Generic error
    Error,
    /// Unexpectedly disconnected
    Disconnected,
    /// The settings, video/audio format, or codecs are unsupported by this output
    Unsupported,
    /// Ran out of disk space
    NoSpace,
    /// Encoder error
    EncodeError,
}

impl ObsOutputStopSignal {
    /// The code that libobs reports for this outcome.
    pub open spec fn spec_code(self) -> i32 {
        match self {
            ObsOutputStopSignal::Success => 0i32,
            ObsOutputStopSignal::BadPath => -1i32,
            ObsOutputStopSignal::ConnectFailed => -2i32,
            ObsOutputStopSignal::InvalidStream => -3i32,
            ObsOutputStopSignal::Error => -4i32,
            ObsOutputStopSignal::Disconnected => -5i32,
            ObsOutputStopSignal::Unsupported => -6i32,
            ObsOutputStopSignal::NoSpace => -7i32,
            ObsOutputStopSignal::EncodeError => -8i32,
        }
    }

    /// The outcome that a code stands for, or the error text for an unknown code.
    pub open spec fn spec_try_from_code(code: i32) -> Result<ObsOutputStopSignal, &'static str> {
        if code == 0i32 {
            Ok(ObsOutputStopSignal::Success)
        } else if code == -1i32 {
            Ok(ObsOutputStopSignal::BadPath)
        } else if code == -2i32 {
            Ok(ObsOutputStopSignal::ConnectFailed)
        } else if code == -3i32 {
            Ok(ObsOutputStopSignal::InvalidStream)
        } else if code == -4i32 {
            Ok(ObsOutputStopSignal::Error)
        } else if code == -5i32 {
            Ok(ObsOutputStopSignal::Disconnected)
        } else if code == -6i32 {
            Ok(ObsOutputStopSignal::Unsupported)
        } else if code == -7i32 {
            Ok(ObsOutputStopSignal::NoSpace)
        } else if code == -8i32 {
            Ok(ObsOutputStopSignal::EncodeError)
        } else {
            Err("Invalid value")
        }
    }

    /// The text shown for this outcome.
    pub open spec fn spec_text(self) -> Seq<char> {
        match self {
            ObsOutputStopSignal::Success => "Success"@,
            ObsOutputStopSignal::BadPath => "Bad Path"@,
            ObsOutputStopSignal::ConnectFailed => "Connect Failed"@,
            ObsOutputStopSignal::InvalidStream => "Invalid Stream"@,
            ObsOutputStopSignal::Error => "Error"@,
            ObsOutputStopSignal::Disconnected => "Disconnected"@,
            ObsOutputStopSignal::Unsupported => "Unsupported"@,
            ObsOutputStopSignal::NoSpace => "No Space"@,
            ObsOutputStopSignal::EncodeError => "Encode Error"@,
        }
    }

    /// Returns the code that libobs reports for this outcome.
    pub fn to_code(self) -> (r: i32)
        ensures
            r == self.spec_code(),
    {
        match self {
            ObsOutputStopSignal::Success => 0,
            ObsOutputStopSignal::BadPath => -1,
            ObsOutputStopSignal::ConnectFailed => -2,
            ObsOutputStopSignal::InvalidStream => -3,
            ObsOutputStopSignal::Error => -4,
            ObsOutputStopSignal::Disconnected => -5,
            ObsOutputStopSignal::Unsupported => -6,
            ObsOutputStopSignal::NoSpace => -7,
            ObsOutputStopSignal::EncodeError => -8,
        }
    }

    /// Reads a code that libobs reported; codes without an outcome give
    /// `Err("Invalid value")`.
    pub fn try_from_code(code: i32) -> (r: Result<ObsOutputStopSignal, &'static str>)
        ensures
            r == ObsOutputStopSignal::spec_try_from_code(code),
    {
        if code == 0 {
            Ok(ObsOutputStopSignal::Success)
        } else if code == -1 {
            Ok(ObsOutputStopSignal::BadPath)
        } else if code == -2 {
            Ok(ObsOutputStopSignal::ConnectFailed)
        } else if code == -3 {
            Ok(ObsOutputStopSignal::InvalidStream)
        } else if code == -4 {
            Ok(ObsOutputStopSignal::Error)
        } else if code == -5 {
            Ok(ObsOutputStopSignal::Disconnected)
        } else if code == -6 {
            Ok(ObsOutputStopSignal::Unsupported)
        } else if code == -7 {
            Ok(ObsOutputStopSignal::NoSpace)
        } else if code == -8 {
            Ok(ObsOutputStopSignal::EncodeError)
        } else {
            Err("Invalid value")
        }
    }

    /// Returns the text shown for this outcome.
    pub fn text(self) -> (r: &'static str)
        ensures
            r@ == self.spec_text(),
    {
        match self {
            ObsOutputStopSignal::Success => "Success",
            ObsOutputStopSignal::BadPath => "Bad Path",
            ObsOutputStopSignal::ConnectFailed => "Connect Failed",
            ObsOutputStopSignal::InvalidStream => "Invalid Stream",
            ObsOutputStopSignal::Error => "Error",
            ObsOutputStopSignal::Disconnected => "Disconnected",
            ObsOutputStopSignal::Unsupported => "Unsupported",
            ObsOutputStopSignal::NoSpace => "No Space",
            ObsOutputStopSignal::EncodeError => "Encode Error",
        }
    }

    /// Returns the text shown for this outcome as an owned string.
    pub fn to_string(self) -> (r: String)
        ensures
            r@ == self.spec_text(),
    {
        self.text().to_owned()
    }
}

impl From<ObsOutputStopSignal> for i32 {
    fn from(val: ObsOutputStopSignal) -> (r: i32) {
        val.to_code()
    }
}

impl vstd::std_specs::convert::FromSpecImpl<ObsOutputStopSignal> for i32 {
    open spec fn obeys_from_spec() -> bool {
        true
    }

    open spec fn from_spec(v: ObsOutputStopSignal) -> i32 {
        v.spec_code()
    }
}

impl TryFrom<i32> for ObsOutputStopSignal {
    type Error = &'static str;

    fn try_from(value: i32) -> (r: Result<ObsOutputStopSignal, &'static str>) {
        ObsOutputStopSignal::try_from_code(value)
    }
}

impl vstd::std_specs::convert::TryFromSpecImpl<i32> for ObsOutputStopSignal {
    open spec fn obeys_try_from_spec() -> bool {
        true
    }

    open spec fn try_from_spec(v: i32) -> Result<ObsOutputStopSignal, &'static str> {
        ObsOutputStopSignal::spec_try_from_code(v)
    }
}

/// Reading back the code of an outcome gives that outcome, and a code is only
/// read as the outcome whose code it is.
pub proof fn lemma_output_stop_signal_code_roundtrip(s: ObsOutputStopSignal, code: i32)
    ensures
        ObsOutputStopSignal::spec_try_from_code(s.spec_code()) == Ok::<ObsOutputStopSignal, &'static str>(s),
        ObsOutputStopSignal::spec_try_from_code(code) matches Ok(t) ==> t.spec_code() == code,
{
}

/// Two different outcomes never share a code.
pub proof fn lemma_output_stop_signal_code_injective(s: ObsOutputStopSignal, t: ObsOutputStopSignal)
    ensures
        s.spec_code() == t.spec_code() ==> s == t,
{
}

/// The values of `ObsVideoFormat` are libobs's `video_format` constants,
/// variant by variant, in both directions.
pub proof fn lemma_video_format_libobs_values()
    ensures
        ObsVideoFormat::AYUV.spec_raw() == 16,
        ObsVideoFormat::spec_from_raw(16u32) == Some(ObsVideoFormat::AYUV),
        ObsVideoFormat::BGR3.spec_raw() == 11,
        ObsVideoFormat::spec_from_raw(11u32) == Some(ObsVideoFormat::BGR3),
        ObsVideoFormat::BGRA.spec_raw() == 7,
        ObsVideoFormat::spec_from_raw(7u32) == Some(ObsVideoFormat::BGRA),
        ObsVideoFormat::BGRX.spec_raw() == 8,
        ObsVideoFormat::spec_from_raw(8u32) == Some(ObsVideoFormat::BGRX),
        ObsVideoFormat::I010.spec_raw() == 17,
        ObsVideoFormat::spec_from_raw(17u32) == Some(ObsVideoFormat::I010),
        ObsVideoFormat::I210.spec_raw() == 19,
        ObsVideoFormat::spec_from_raw(19u32) == Some(ObsVideoFormat::I210),
        ObsVideoFormat::I40A.spec_raw() == 13,
        ObsVideoFormat::spec_from_raw(13u32) == Some(ObsVideoFormat::I40A),
        ObsVideoFormat::I412.spec_raw() == 20,
        ObsVideoFormat::spec_from_raw(20u32) == Some(ObsVideoFormat::I412),
        ObsVideoFormat::I420.spec_raw() == 1,
        ObsVideoFormat::spec_from_raw(1u32) == Some(ObsVideoFormat::I420),
        ObsVideoFormat::I422.spec_raw() == 12,
        ObsVideoFormat::spec_from_raw(12u32) == Some(ObsVideoFormat::I422),
        ObsVideoFormat::I42A.spec_raw() == 14,
        ObsVideoFormat::spec_from_raw(14u32) == Some(ObsVideoFormat::I42A),
        ObsVideoFormat::I444.spec_raw() == 10,
        ObsVideoFormat::spec_from_raw(10u32) == Some(ObsVideoFormat::I444),
        ObsVideoFormat::NONE.spec_raw() == 0,
        ObsVideoFormat::spec_from_raw(0u32) == Some(ObsVideoFormat::NONE),
        ObsVideoFormat::NV12.spec_raw() == 2,
        ObsVideoFormat::spec_from_raw(2u32) == Some(ObsVideoFormat::NV12),
        ObsVideoFormat::P010.spec_raw() == 18,
        ObsVideoFormat::spec_from_raw(18u32) == Some(ObsVideoFormat::P010),
        ObsVideoFormat::P216.spec_raw() == 22,
        ObsVideoFormat::spec_from_raw(22u32) == Some(ObsVideoFormat::P216),
        ObsVideoFormat::P416.spec_raw() == 23,
        ObsVideoFormat::spec_from_raw(23u32) == Some(ObsVideoFormat::P416),
        ObsVideoFormat::R10L.spec_raw() == 25,
        ObsVideoFormat::spec_from_raw(25u32) == Some(ObsVideoFormat::R10L),
        ObsVideoFormat::RGBA.spec_raw() == 6,
        ObsVideoFormat::spec_from_raw(6u32) == Some(ObsVideoFormat::RGBA),
        ObsVideoFormat::UYVY.spec_raw() == 5,
        ObsVideoFormat::spec_from_raw(5u32) == Some(ObsVideoFormat::UYVY),
        ObsVideoFormat::V210.spec_raw() == 24,
        ObsVideoFormat::spec_from_raw(24u32) == Some(ObsVideoFormat::V210),
        ObsVideoFormat::Y800.spec_raw() == 9,
        ObsVideoFormat::spec_from_raw(9u32) == Some(ObsVideoFormat::Y800),
        ObsVideoFormat::YA2L.spec_raw() == 21,
        ObsVideoFormat::spec_from_raw(21u32) == Some(ObsVideoFormat::YA2L),
        ObsVideoFormat::YUVA.spec_raw() == 15,
        ObsVideoFormat::spec_from_raw(15u32) == Some(ObsVideoFormat::YUVA),
        ObsVideoFormat::YUY2.spec_raw() == 4,
        ObsVideoFormat::spec_from_raw(4u32) == Some(ObsVideoFormat::YUY2),
        ObsVideoFormat::YVYU.spec_raw() == 3,
        ObsVideoFormat::spec_from_raw(3u32) == Some(ObsVideoFormat::YVYU),
{
}

/// The values of `ObsColorspace` are libobs's `video_colorspace` constants,
/// variant by variant, in both directions.
pub proof fn lemma_colorspace_libobs_values()
    ensures
        ObsColorspace::CS2100HLG.spec_raw() == 5,
        ObsColorspace::spec_from_raw(5u32) == Some(ObsColorspace::CS2100HLG),
        ObsColorspace::CS2100PQ.spec_raw() == 4,
        ObsColorspace::spec_from_raw(4u32) == Some(ObsColorspace::CS2100PQ),
        ObsColorspace::CS601.spec_raw() == 1,
        ObsColorspace::spec_from_raw(1u32) == Some(ObsColorspace::CS601),
        ObsColorspace::CS709.spec_raw() == 2,
        ObsColorspace::spec_from_raw(2u32) == Some(ObsColorspace::CS709),
        ObsColorspace::Default.spec_raw() == 0,
        ObsColorspace::spec_from_raw(0u32) == Some(ObsColorspace::Default),
        ObsColorspace::CSRGB.spec_raw() == 3,
        ObsColorspace::spec_from_raw(3u32) == Some(ObsColorspace::CSRGB),
{
}

/// The values of `ObsVideoRange` are libobs's `video_range_type` constants,
/// variant by variant, in both directions.
pub proof fn lemma_video_range_libobs_values()
    ensures
        ObsVideoRange::Default.spec_raw() == 0,
        ObsVideoRange::spec_from_raw(0u32) == Some(ObsVideoRange::Default),
        ObsVideoRange::Partial.spec_raw() == 1,
        ObsVideoRange::spec_from_raw(1u32) == Some(ObsVideoRange::Partial),
        ObsVideoRange::Full.spec_raw() == 2,
        ObsVideoRange::spec_from_raw(2u32) == Some(ObsVideoRange::Full),
{
}

/// The values of `ObsScaleType` are libobs's `obs_scale_type` constants,
/// variant by variant, in both directions.
pub proof fn lemma_scale_type_libobs_values()
    ensures
        ObsScaleType::Area.spec_raw() == 5,
        ObsScaleType::spec_from_raw(5u32) == Some(ObsScaleType::Area),
        ObsScaleType::Bicubic.spec_raw() == 2,
        ObsScaleType::spec_from_raw(2u32) == Some(ObsScaleType::Bicubic),
        ObsScaleType::Bilinear.spec_raw() == 3,
        ObsScaleType::spec_from_raw(3u32) == Some(ObsScaleType::Bilinear),
        ObsScaleType::Disable.spec_raw() == 0,
        ObsScaleType::spec_from_raw(0u32) == Some(ObsScaleType::Disable),
        ObsScaleType::Lanczos.spec_raw() == 4,
        ObsScaleType::spec_from_raw(4u32) == Some(ObsScaleType::Lanczos),
        ObsScaleType::Point.spec_raw() == 1,
        ObsScaleType::spec_from_raw(1u32) == Some(ObsScaleType::Point),
{
}

/// The values of `ObsResetVideoStatus` are libobs's `OBS_VIDEO_*` constants,
/// variant by variant, in both directions.
pub proof fn lemma_reset_video_status_libobs_values()
    ensures
        ObsResetVideoStatus::Success.spec_raw() == 0,
        ObsResetVideoStatus::spec_from_raw(0i32) == Some(ObsResetVideoStatus::Success),
        ObsResetVideoStatus::NotSupported.spec_raw() == -2,
        ObsResetVideoStatus::spec_from_raw(-2i32) == Some(ObsResetVideoStatus::NotSupported),
        ObsResetVideoStatus::InvalidParameter.spec_raw() == -3,
        ObsResetVideoStatus::spec_from_raw(-3i32) == Some(ObsResetVideoStatus::InvalidParameter),
        ObsResetVideoStatus::CurrentlyActive.spec_raw() == -4,
        ObsResetVideoStatus::spec_from_raw(-4i32) == Some(ObsResetVideoStatus::CurrentlyActive),
        ObsResetVideoStatus::Failure.spec_raw() == -1,
        ObsResetVideoStatus::spec_from_raw(-1i32) == Some(ObsResetVideoStatus::Failure),
{
}

/// The values of `ObsSpeakerLayout` are libobs's `speaker_layout` constants,
/// variant by variant, in both directions.
pub proof fn lemma_speaker_layout_libobs_values()
    ensures
        ObsSpeakerLayout::S2Point1.spec_raw() == 3,
        ObsSpeakerLayout::spec_from_raw(3u32) == Some(ObsSpeakerLayout::S2Point1),
        ObsSpeakerLayout::S4Point0.spec_raw() == 4,
        ObsSpeakerLayout::spec_from_raw(4u32) == Some(ObsSpeakerLayout::S4Point0),
        ObsSpeakerLayout::S4Point1.spec_raw() == 5,
        ObsSpeakerLayout::spec_from_raw(5u32) == Some(ObsSpeakerLayout::S4Point1),
        ObsSpeakerLayout::S5Point1.spec_raw() == 6,
        ObsSpeakerLayout::spec_from_raw(6u32) == Some(ObsSpeakerLayout::S5Point1),
        ObsSpeakerLayout::S7Point1.spec_raw() == 8,
        ObsSpeakerLayout::spec_from_raw(8u32) == Some(ObsSpeakerLayout::S7Point1),
        ObsSpeakerLayout::Mono.spec_raw() == 1,
        ObsSpeakerLayout::spec_from_raw(1u32) == Some(ObsSpeakerLayout::Mono),
        ObsSpeakerLayout::Stereo.spec_raw() == 2,
        ObsSpeakerLayout::spec_from_raw(2u32) == Some(ObsSpeakerLayout::Stereo),
        ObsSpeakerLayout::Unknown.spec_raw() == 0,
        ObsSpeakerLayout::spec_from_raw(0u32) == Some(ObsSpeakerLayout::Unknown),
{
}

/// The values of `ObsEncoderType` are libobs's `obs_encoder_type` constants,
/// variant by variant, in both directions.
pub proof fn lemma_encoder_type_libobs_values()
    ensures
        ObsEncoderType::Video.spec_raw() == 1,
        ObsEncoderType::spec_from_raw(1u32) == Some(ObsEncoderType::Video),
        ObsEncoderType::Audio.spec_raw() == 0,
        ObsEncoderType::spec_from_raw(0u32) == Some(ObsEncoderType::Audio),
{
}

/// The values of `ObsLogLevel` are libobs's `LOG_*` constants,
/// variant by variant, in both directions.
pub proof fn lemma_log_level_libobs_values()
    ensures
        ObsLogLevel::Error.spec_raw() == 100,
        ObsLogLevel::spec_from_raw(100i32) == Some(ObsLogLevel::Error),
        ObsLogLevel::Warning.spec_raw() == 200,
        ObsLogLevel::spec_from_raw(200i32) == Some(ObsLogLevel::Warning),
        ObsLogLevel::Info.spec_raw() == 300,
        ObsLogLevel::spec_from_raw(300i32) == Some(ObsLogLevel::Info),
        ObsLogLevel::Debug.spec_raw() == 400,
        ObsLogLevel::spec_from_raw(400i32) == Some(ObsLogLevel::Debug),
{
}

/// The values of `ObsBounds` are libobs's `obs_bounds_type` constants,
/// variant by variant, in both directions.
pub proof fn lemma_bounds_libobs_values()
    ensures
        ObsBounds::NoBounds.spec_raw() == 0,
        ObsBounds::spec_from_raw(0u32) == Some(ObsBounds::NoBounds),
        ObsBounds::Stretch.spec_raw() == 1,
        ObsBounds::spec_from_raw(1u32) == Some(ObsBounds::Stretch),
        ObsBounds::ScaleInner.spec_raw() == 2,
        ObsBounds::spec_from_raw(2u32) == Some(ObsBounds::ScaleInner),
        ObsBounds::ScaleOuter.spec_raw() == 3,
        ObsBounds::spec_from_raw(3u32) == Some(ObsBounds::ScaleOuter),
        ObsBounds::ScaleToWidth.spec_raw() == 4,
        ObsBounds::spec_from_raw(4u32) == Some(ObsBounds::ScaleToWidth),
        ObsBounds::ScaleToHeight.spec_raw() == 5,
        ObsBounds::spec_from_raw(5u32) == Some(ObsBounds::ScaleToHeight),
        ObsBounds::MaxOnly.spec_raw() == 6,
        ObsBounds::spec_from_raw(6u32) == Some(ObsBounds::MaxOnly),
{
}

/// The values of `ObsOutputStopSignal` are libobs's `OBS_OUTPUT_*` constants,
/// variant by variant, in both directions.
pub proof fn lemma_output_stop_signal_libobs_values()
    ensures
        ObsOutputStopSignal::Success.spec_code() == 0,
        ObsOutputStopSignal::spec_try_from_code(0i32) == Ok::<ObsOutputStopSignal, &'static str>(ObsOutputStopSignal::Success),
        ObsOutputStopSignal::BadPath.spec_code() == -1,
        ObsOutputStopSignal::spec_try_from_code(-1i32) == Ok::<ObsOutputStopSignal, &'static str>(ObsOutputStopSignal::BadPath),
        ObsOutputStopSignal::ConnectFailed.spec_code() == -2,
        ObsOutputStopSignal::spec_try_from_code(-2i32) == Ok::<ObsOutputStopSignal, &'static str>(ObsOutputStopSignal::ConnectFailed),
        ObsOutputStopSignal::InvalidStream.spec_code() == -3,
        ObsOutputStopSignal::spec_try_from_code(-3i32) == Ok::<ObsOutputStopSignal, &'static str>(ObsOutputStopSignal::InvalidStream),
        ObsOutputStopSignal::Error.spec_code() == -4,
        ObsOutputStopSignal::spec_try_from_code(-4i32) == Ok::<ObsOutputStopSignal, &'static str>(ObsOutputStopSignal::Error),
        ObsOutputStopSignal::Disconnected.spec_code() == -5,
        ObsOutputStopSignal::spec_try_from_code(-5i32) == Ok::<ObsOutputStopSignal, &'static str>(ObsOutputStopSignal::Disconnected),
        ObsOutputStopSignal::Unsupported.spec_code() == -6,
        ObsOutputStopSignal::spec_try_from_code(-6i32) == Ok::<ObsOutputStopSignal, &'static str>(ObsOutputStopSignal::Unsupported),
        ObsOutputStopSignal::NoSpace.spec_code() == -7,
        ObsOutputStopSignal::spec_try_from_code(-7i32) == Ok::<ObsOutputStopSignal, &'static str>(ObsOutputStopSignal::NoSpace),
        ObsOutputStopSignal::EncodeError.spec_code() == -8,
        ObsOutputStopSignal::spec_try_from_code(-8i32) == Ok::<ObsOutputStopSignal, &'static str>(ObsOutputStopSignal::EncodeError),
{
}

/// The values of `ObsSamplesPerSecond` are the sample rates in hertz, variant by
/// variant, in both directions.
pub proof fn lemma_samples_per_second_values()
    ensures
        ObsSamplesPerSecond::F44100.spec_raw() == 44100,
        ObsSamplesPerSecond::spec_from_raw(44100u32) == Some(ObsSamplesPerSecond::F44100),
        ObsSamplesPerSecond::F48000.spec_raw() == 48000,
        ObsSamplesPerSecond::spec_from_raw(48000u32) == Some(ObsSamplesPerSecond::F48000),
{
}

/// Each variant of `ObsVideoFormat` is named by its own identifier.
pub proof fn lemma_video_format_names()
    ensures
        ObsVideoFormat::AYUV.spec_name() == "AYUV"@,
        ObsVideoFormat::BGR3.spec_name() == "BGR3"@,
        ObsVideoFormat::BGRA.spec_name() == "BGRA"@,
        ObsVideoFormat::BGRX.spec_name() == "BGRX"@,
        ObsVideoFormat::I010.spec_name() == "I010"@,
        ObsVideoFormat::I210.spec_name() == "I210"@,
        ObsVideoFormat::I40A.spec_name() == "I40A"@,
        ObsVideoFormat::I412.spec_name() == "I412"@,
        ObsVideoFormat::I420.spec_name() == "I420"@,
        ObsVideoFormat::I422.spec_name() == "I422"@,
        ObsVideoFormat::I42A.spec_name() == "I42A"@,
        ObsVideoFormat::I444.spec_name() == "I444"@,
        ObsVideoFormat::NONE.spec_name() == "NONE"@,
        ObsVideoFormat::NV12.spec_name() == "NV12"@,
        ObsVideoFormat::P010.spec_name() == "P010"@,
        ObsVideoFormat::P216.spec_name() == "P216"@,
        ObsVideoFormat::P416.spec_name() == "P416"@,
        ObsVideoFormat::R10L.spec_name() == "R10L"@,
        ObsVideoFormat::RGBA.spec_name() == "RGBA"@,
        ObsVideoFormat::UYVY.spec_name() == "UYVY"@,
        ObsVideoFormat::V210.spec_name() == "V210"@,
        ObsVideoFormat::Y800.spec_name() == "Y800"@,
        ObsVideoFormat::YA2L.spec_name() == "YA2L"@,
        ObsVideoFormat::YUVA.spec_name() == "YUVA"@,
        ObsVideoFormat::YUY2.spec_name() == "YUY2"@,
        ObsVideoFormat::YVYU.spec_name() == "YVYU"@,
{
}

/// Each variant of `ObsColorspace` is named by its own identifier.
pub proof fn lemma_colorspace_names()
    ensures
        ObsColorspace::CS2100HLG.spec_name() == "CS2100HLG"@,
        ObsColorspace::CS2100PQ.spec_name() == "CS2100PQ"@,
        ObsColorspace::CS601.spec_name() == "CS601"@,
        ObsColorspace::CS709.spec_name() == "CS709"@,
        ObsColorspace::Default.spec_name() == "Default"@,
        ObsColorspace::CSRGB.spec_name() == "CSRGB"@,
{
}

/// Each variant of `ObsVideoRange` is named by its own identifier.
pub proof fn lemma_video_range_names()
    ensures
        ObsVideoRange::Default.spec_name() == "Default"@,
        ObsVideoRange::Partial.spec_name() == "Partial"@,
        ObsVideoRange::Full.spec_name() == "Full"@,
{
}

/// Each variant of `ObsScaleType` is named by its own identifier.
pub proof fn lemma_scale_type_names()
    ensures
        ObsScaleType::Area.spec_name() == "Area"@,
        ObsScaleType::Bicubic.spec_name() == "Bicubic"@,
        ObsScaleType::Bilinear.spec_name() == "Bilinear"@,
        ObsScaleType::Disable.spec_name() == "Disable"@,
        ObsScaleType::Lanczos.spec_name() == "Lanczos"@,
        ObsScaleType::Point.spec_name() == "Point"@,
{
}

/// Each variant of `ObsResetVideoStatus` is named by its own identifier.
pub proof fn lemma_reset_video_status_names()
    ensures
        ObsResetVideoStatus::Success.spec_name() == "Success"@,
        ObsResetVideoStatus::NotSupported.spec_name() == "NotSupported"@,
        ObsResetVideoStatus::InvalidParameter.spec_name() == "InvalidParameter"@,
        ObsResetVideoStatus::CurrentlyActive.spec_name() == "CurrentlyActive"@,
        ObsResetVideoStatus::Failure.spec_name() == "Failure"@,
{
}

/// Each variant of `ObsSpeakerLayout` is named by its own identifier.
pub proof fn lemma_speaker_layout_names()
    ensures
        ObsSpeakerLayout::S2Point1.spec_name() == "S2Point1"@,
        ObsSpeakerLayout::S4Point0.spec_name() == "S4Point0"@,
        ObsSpeakerLayout::S4Point1.spec_name() == "S4Point1"@,
        ObsSpeakerLayout::S5Point1.spec_name() == "S5Point1"@,
        ObsSpeakerLayout::S7Point1.spec_name() == "S7Point1"@,
        ObsSpeakerLayout::Mono.spec_name() == "Mono"@,
        ObsSpeakerLayout::Stereo.spec_name() == "Stereo"@,
        ObsSpeakerLayout::Unknown.spec_name() == "Unknown"@,
{
}

/// Each variant of `ObsEncoderType` is named by its own identifier.
pub proof fn lemma_encoder_type_names()
    ensures
        ObsEncoderType::Video.spec_name() == "Video"@,
        ObsEncoderType::Audio.spec_name() == "Audio"@,
{
}

/// Each variant of `ObsLogLevel` is named by its own identifier.
pub proof fn lemma_log_level_names()
    ensures
        ObsLogLevel::Error.spec_name() == "Error"@,
        ObsLogLevel::Warning.spec_name() == "Warning"@,
        ObsLogLevel::Info.spec_name() == "Info"@,
        ObsLogLevel::Debug.spec_name() == "Debug"@,
{
}

/// Each variant of `ObsBounds` is named by its own identifier.
pub proof fn lemma_bounds_names()
    ensures
        ObsBounds::NoBounds.spec_name() == "NoBounds"@,
        ObsBounds::Stretch.spec_name() == "Stretch"@,
        ObsBounds::ScaleInner.spec_name() == "ScaleInner"@,
        ObsBounds::ScaleOuter.spec_name() == "ScaleOuter"@,
        ObsBounds::ScaleToWidth.spec_name() == "ScaleToWidth"@,
        ObsBounds::ScaleToHeight.spec_name() == "ScaleToHeight"@,
        ObsBounds::MaxOnly.spec_name() == "MaxOnly"@,
{
}

/// Each variant of `ObsSamplesPerSecond` is named by its own identifier.
pub proof fn lemma_samples_per_second_names()
    ensures
        ObsSamplesPerSecond::F44100.spec_name() == "F44100"@,
        ObsSamplesPerSecond::F48000.spec_name() == "F48000"@,
{
}

/// The text of each stop outcome, as libobs-wrapper shows it.
pub proof fn lemma_output_stop_signal_texts()
    ensures
        ObsOutputStopSignal::Success.spec_text() == "Success"@,
        ObsOutputStopSignal::BadPath.spec_text() == "Bad Path"@,
        ObsOutputStopSignal::ConnectFailed.spec_text() == "Connect Failed"@,
        ObsOutputStopSignal::InvalidStream.spec_text() == "Invalid Stream"@,
        ObsOutputStopSignal::Error.spec_text() == "Error"@,
        ObsOutputStopSignal::Disconnected.spec_text() == "Disconnected"@,
        ObsOutputStopSignal::Unsupported.spec_text() == "Unsupported"@,
        ObsOutputStopSignal::NoSpace.spec_text() == "No Space"@,
        ObsOutputStopSignal::EncodeError.spec_text() == "Encode Error"@,
{
}

/// The graphics module that libobs loads for each backend.
pub proof fn lemma_graphics_module_names()
    ensures
        ObsGraphicsModule::OpenGL.spec_module_name() == "libobs-opengl"@,
        ObsGraphicsModule::DirectX11.spec_module_name() == "libobs-d3d11.dll"@,
{
}

} // verus!
