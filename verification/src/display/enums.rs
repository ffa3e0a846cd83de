//! Enumerations of the libobs graphics subsystem used when creating displays.
use vstd::prelude::*;

verus! {

/// Color formats of the libobs graphics subsystem.
#[derive(Clone, Copy, Debug, PartialEq, Eq, Structural)]
pub enum GsColorFormat {
    Unknown,
    A8,
    R8,
    RGBA,
    BGRX,
    BGRA,
    R10G10B10A2,
    RGBA16,
    R16,
    RGBA16F,
    RGBA32F,
    RG16F,
    RG32F,
    R16F,
    R32F,
    DXT1,
    DXT3,
    DXT5,
    R8G8,
    RGBAUnorm,
    BGRXUnorm,
    BGRAUnorm,
    RG16,
}

impl GsColorFormat {
    /// The numeric value that libobs uses for this variant.
    pub open spec fn spec_raw(self) -> u32 {
        match self {
            GsColorFormat::Unknown => 0u32,
            GsColorFormat::A8 => 1u32,
            GsColorFormat::R8 => 2u32,
            GsColorFormat::RGBA => 3u32,
            GsColorFormat::BGRX => 4u32,
            GsColorFormat::BGRA => 5u32,
            GsColorFormat::R10G10B10A2 => 6u32,
            GsColorFormat::RGBA16 => 7u32,
            GsColorFormat::R16 => 8u32,
            GsColorFormat::RGBA16F => 9u32,
            GsColorFormat::RGBA32F => 10u32,
            GsColorFormat::RG16F => 11u32,
            GsColorFormat::RG32F => 12u32,
            GsColorFormat::R16F => 13u32,
            GsColorFormat::R32F => 14u32,
            GsColorFormat::DXT1 => 15u32,
            GsColorFormat::DXT3 => 16u32,
            GsColorFormat::DXT5 => 17u32,
            GsColorFormat::R8G8 => 18u32,
            GsColorFormat::RGBAUnorm => 19u32,
            GsColorFormat::BGRXUnorm => 20u32,
            GsColorFormat::BGRAUnorm => 21u32,
            GsColorFormat::RG16 => 22u32,
        }
    }

    /// The variant that a libobs value stands for, if any.
    pub open spec fn spec_from_raw(value: u32) -> Option<GsColorFormat> {
        if value == 0u32 {
            Some(GsColorFormat::Unknown)
        } else if value == 1u32 {
            Some(GsColorFormat::A8)
        } else if value == 2u32 {
            Some(GsColorFormat::R8)
        } else if value == 3u32 {
            Some(GsColorFormat::RGBA)
        } else if value == 4u32 {
            Some(GsColorFormat::BGRX)
        } else if value == 5u32 {
            Some(GsColorFormat::BGRA)
        } else if value == 6u32 {
            Some(GsColorFormat::R10G10B10A2)
        } else if value == 7u32 {
            Some(GsColorFormat::RGBA16)
        } else if value == 8u32 {
            Some(GsColorFormat::R16)
        } else if value == 9u32 {
            Some(GsColorFormat::RGBA16F)
        } else if value == 10u32 {
            Some(GsColorFormat::RGBA32F)
        } else if value == 11u32 {
            Some(GsColorFormat::RG16F)
        } else if value == 12u32 {
            Some(GsColorFormat::RG32F)
        } else if value == 13u32 {
            Some(GsColorFormat::R16F)
        } else if value == 14u32 {
            Some(GsColorFormat::R32F)
        } else if value == 15u32 {
            Some(GsColorFormat::DXT1)
        } else if value == 16u32 {
            Some(GsColorFormat::DXT3)
        } else if value == 17u32 {
            Some(GsColorFormat::DXT5)
        } else if value == 18u32 {
            Some(GsColorFormat::R8G8)
        } else if value == 19u32 {
            Some(GsColorFormat::RGBAUnorm)
        } else if value == 20u32 {
            Some(GsColorFormat::BGRXUnorm)
        } else if value == 21u32 {
            Some(GsColorFormat::BGRAUnorm)
        } else if value == 22u32 {
            Some(GsColorFormat::RG16)
        } else {
            None
        }
    }

    /// Returns the numeric value that libobs uses for this variant.
    pub fn to_raw(self) -> (r: u32)
        ensures
            r == self.spec_raw(),
    {
        match self {
            GsColorFormat::Unknown => 0,
            GsColorFormat::A8 => 1,
            GsColorFormat::R8 => 2,
            GsColorFormat::RGBA => 3,
            GsColorFormat::BGRX => 4,
            GsColorFormat::BGRA => 5,
            GsColorFormat::R10G10B10A2 => 6,
            GsColorFormat::RGBA16 => 7,
            GsColorFormat::R16 => 8,
            GsColorFormat::RGBA16F => 9,
            GsColorFormat::RGBA32F => 10,
            GsColorFormat::RG16F => 11,
            GsColorFormat::RG32F => 12,
            GsColorFormat::R16F => 13,
            GsColorFormat::R32F => 14,
            GsColorFormat::DXT1 => 15,
            GsColorFormat::DXT3 => 16,
            GsColorFormat::DXT5 => 17,
            GsColorFormat::R8G8 => 18,
            GsColorFormat::RGBAUnorm => 19,
            GsColorFormat::BGRXUnorm => 20,
            GsColorFormat::BGRAUnorm => 21,
            GsColorFormat::RG16 => 22,
        }
    }

    /// Converts a libobs value back into a variant; `None` when no variant has it.
    pub fn from_raw(value: u32) -> (r: Option<GsColorFormat>)
        ensures
            r == GsColorFormat::spec_from_raw(value),
    {
        if value == 0 {
            Some(GsColorFormat::Unknown)
        } else if value == 1 {
            Some(GsColorFormat::A8)
        } else if value == 2 {
            Some(GsColorFormat::R8)
        } else if value == 3 {
            Some(GsColorFormat::RGBA)
        } else if value == 4 {
            Some(GsColorFormat::BGRX)
        } else if value == 5 {
            Some(GsColorFormat::BGRA)
        } else if value == 6 {
            Some(GsColorFormat::R10G10B10A2)
        } else if value == 7 {
            Some(GsColorFormat::RGBA16)
        } else if value == 8 {
            Some(GsColorFormat::R16)
        } else if value == 9 {
            Some(GsColorFormat::RGBA16F)
        } else if value == 10 {
            Some(GsColorFormat::RGBA32F)
        } else if value == 11 {
            Some(GsColorFormat::RG16F)
        } else if value == 12 {
            Some(GsColorFormat::RG32F)
        } else if value == 13 {
            Some(GsColorFormat::R16F)
        } else if value == 14 {
            Some(GsColorFormat::R32F)
        } else if value == 15 {
            Some(GsColorFormat::DXT1)
        } else if value == 16 {
            Some(GsColorFormat::DXT3)
        } else if value == 17 {
            Some(GsColorFormat::DXT5)
        } else if value == 18 {
            Some(GsColorFormat::R8G8)
        } else if value == 19 {
            Some(GsColorFormat::RGBAUnorm)
        } else if value == 20 {
            Some(GsColorFormat::BGRXUnorm)
        } else if value == 21 {
            Some(GsColorFormat::BGRAUnorm)
        } else if value == 22 {
            Some(GsColorFormat::RG16)
        } else {
            None
        }
    }

    /// The variant's name, as its `Debug` output shows it.
    pub open spec fn spec_name(self) -> Seq<char> {
        match self {
            GsColorFormat::Unknown => "Unknown"@,
            GsColorFormat::A8 => "A8"@,
            GsColorFormat::R8 => "R8"@,
            GsColorFormat::RGBA => "RGBA"@,
            GsColorFormat::BGRX => "BGRX"@,
            GsColorFormat::BGRA => "BGRA"@,
            GsColorFormat::R10G10B10A2 => "R10G10B10A2"@,
            GsColorFormat::RGBA16 => "RGBA16"@,
            GsColorFormat::R16 => "R16"@,
            GsColorFormat::RGBA16F => "RGBA16F"@,
            GsColorFormat::RGBA32F => "RGBA32F"@,
            GsColorFormat::RG16F => "RG16F"@,
            GsColorFormat::RG32F => "RG32F"@,
            GsColorFormat::R16F => "R16F"@,
            GsColorFormat::R32F => "R32F"@,
            GsColorFormat::DXT1 => "DXT1"@,
            GsColorFormat::DXT3 => "DXT3"@,
            GsColorFormat::DXT5 => "DXT5"@,
            GsColorFormat::R8G8 => "R8G8"@,
            GsColorFormat::RGBAUnorm => "RGBAUnorm"@,
            GsColorFormat::BGRXUnorm => "BGRXUnorm"@,
            GsColorFormat::BGRAUnorm => "BGRAUnorm"@,
            GsColorFormat::RG16 => "RG16"@,
        }
    }

    /// Returns the variant's name.
    pub fn name(self) -> (r: &'static str)
        ensures
            r@ == self.spec_name(),
    {
        match self {
            GsColorFormat::Unknown => "Unknown",
            GsColorFormat::A8 => "A8",
            GsColorFormat::R8 => "R8",
            GsColorFormat::RGBA => "RGBA",
            GsColorFormat::BGRX => "BGRX",
            GsColorFormat::BGRA => "BGRA",
            GsColorFormat::R10G10B10A2 => "R10G10B10A2",
            GsColorFormat::RGBA16 => "RGBA16",
            GsColorFormat::R16 => "R16",
            GsColorFormat::RGBA16F => "RGBA16F",
            GsColorFormat::RGBA32F => "RGBA32F",
            GsColorFormat::RG16F => "RG16F",
            GsColorFormat::RG32F => "RG32F",
            GsColorFormat::R16F => "R16F",
            GsColorFormat::R32F => "R32F",
            GsColorFormat::DXT1 => "DXT1",
            GsColorFormat::DXT3 => "DXT3",
            GsColorFormat::DXT5 => "DXT5",
            GsColorFormat::R8G8 => "R8G8",
            GsColorFormat::RGBAUnorm => "RGBAUnorm",
            GsColorFormat::BGRXUnorm => "BGRXUnorm",
            GsColorFormat::BGRAUnorm => "BGRAUnorm",
            GsColorFormat::RG16 => "RG16",
        }
    }
}

/// Turning a GsColorFormat into its libobs value and back gives the same variant,
/// and a libobs value is only ever read back as the variant that has that value.
pub proof fn lemma_gs_color_format_raw_roundtrip(e: GsColorFormat, value: u32)
    ensures
        GsColorFormat::spec_from_raw(e.spec_raw()) == Some(e),
        GsColorFormat::spec_from_raw(value) matches Some(f) ==> f.spec_raw() == value,
{
}

/// Depth/stencil formats of the libobs graphics subsystem.
#[derive(Clone, Copy, Debug, PartialEq, Eq, Structural)]
pub enum GsZstencilFormat {
    ZSNone,
    Z16,
    Z24s8,
    Z32F,
    Z32s8X24,
}

impl GsZstencilFormat {
    /// The numeric value that libobs uses for this variant.
    pub open spec fn spec_raw(self) -> u32 {
        match self {
            GsZstencilFormat::ZSNone => 0u32,
            GsZstencilFormat::Z16 => 1u32,
            GsZstencilFormat::Z24s8 => 2u32,
            GsZstencilFormat::Z32F => 3u32,
            GsZstencilFormat::Z32s8X24 => 4u32,
        }
    }

    /// The variant that a libobs value stands for, if any.
    pub open spec fn spec_from_raw(value: u32) -> Option<GsZstencilFormat> {
        if value == 0u32 {
            Some(GsZstencilFormat::ZSNone)
        } else if value == 1u32 {
            Some(GsZstencilFormat::Z16)
        } else if value == 2u32 {
            Some(GsZstencilFormat::Z24s8)
        } else if value == 3u32 {
            Some(GsZstencilFormat::Z32F)
        } else if value == 4u32 {
            Some(GsZstencilFormat::Z32s8X24)
        } else {
            None
        }
    }

    /// Returns the numeric value that libobs uses for this variant.
    pub fn to_raw(self) -> (r: u32)
        ensures
            r == self.spec_raw(),
    {
        match self {
            GsZstencilFormat::ZSNone => 0,
            GsZstencilFormat::Z16 => 1,
            GsZstencilFormat::Z24s8 => 2,
            GsZstencilFormat::Z32F => 3,
            GsZstencilFormat::Z32s8X24 => 4,
        }
    }

    /// Converts a libobs value back into a variant; `None` when no variant has it.
    pub fn from_raw(value: u32) -> (r: Option<GsZstencilFormat>)
        ensures
            r == GsZstencilFormat::spec_from_raw(value),
    {
        if value == 0 {
            Some(GsZstencilFormat::ZSNone)
        } else if value == 1 {
            Some(GsZstencilFormat::Z16)
        } else if value == 2 {
            Some(GsZstencilFormat::Z24s8)
        } else if value == 3 {
            Some(GsZstencilFormat::Z32F)
        } else if value == 4 {
            Some(GsZstencilFormat::Z32s8X24)
        } else {
            None
        }
    }

    /// The variant's name, as its `Debug` output shows it.
    pub open spec fn spec_name(self) -> Seq<char> {
        match self {
            GsZstencilFormat::ZSNone => "ZSNone"@,
            GsZstencilFormat::Z16 => "Z16"@,
            GsZstencilFormat::Z24s8 => "Z24s8"@,
            GsZstencilFormat::Z32F => "Z32F"@,
            GsZstencilFormat::Z32s8X24 => "Z32s8X24"@,
        }
    }

    /// Returns the variant's name.
    pub fn name(self) -> (r: &'static str)
        ensures
            r@ == self.spec_name(),
    {
        match self {
            GsZstencilFormat::ZSNone => "ZSNone",
            GsZstencilFormat::Z16 => "Z16",
            GsZstencilFormat::Z24s8 => "Z24s8",
            GsZstencilFormat::Z32F => "Z32F",
            GsZstencilFormat::Z32s8X24 => "Z32s8X24",
        }
    }
}

/// Turning a GsZstencilFormat into its libobs value and back gives the same variant,
/// and a libobs value is only ever read back as the variant that has that value.
pub proof fn lemma_gs_zstencil_format_raw_roundtrip(e: GsZstencilFormat, value: u32)
    ensures
        GsZstencilFormat::spec_from_raw(e.spec_raw()) == Some(e),
        GsZstencilFormat::spec_from_raw(value) matches Some(f) ==> f.spec_raw() == value,
{
}
/// The values of `GsColorFormat` are libobs's `gs_color_format` constants,
/// variant by variant, in both directions.
pub proof fn lemma_gs_color_format_libobs_values()
    ensures
        GsColorFormat::Unknown.spec_raw() == 0,
        GsColorFormat::spec_from_raw(0u32) == Some(GsColorFormat::Unknown),
        GsColorFormat::A8.spec_raw() == 1,
        GsColorFormat::spec_from_raw(1u32) == Some(GsColorFormat::A8),
        GsColorFormat::R8.spec_raw() == 2,
        GsColorFormat::spec_from_raw(2u32) == Some(GsColorFormat::R8),
        GsColorFormat::RGBA.spec_raw() == 3,
        GsColorFormat::spec_from_raw(3u32) == Some(GsColorFormat::RGBA),
        GsColorFormat::BGRX.spec_raw() == 4,
        GsColorFormat::spec_from_raw(4u32) == Some(GsColorFormat::BGRX),
        GsColorFormat::BGRA.spec_raw() == 5,
        GsColorFormat::spec_from_raw(5u32) == Some(GsColorFormat::BGRA),
        GsColorFormat::R10G10B10A2.spec_raw() == 6,
        GsColorFormat::spec_from_raw(6u32) == Some(GsColorFormat::R10G10B10A2),
        GsColorFormat::RGBA16.spec_raw() == 7,
        GsColorFormat::spec_from_raw(7u32) == Some(GsColorFormat::RGBA16),
        GsColorFormat::R16.spec_raw() == 8,
        GsColorFormat::spec_from_raw(8u32) == Some(GsColorFormat::R16),
        GsColorFormat::RGBA16F.spec_raw() == 9,
        GsColorFormat::spec_from_raw(9u32) == Some(GsColorFormat::RGBA16F),
        GsColorFormat::RGBA32F.spec_raw() == 10,
        GsColorFormat::spec_from_raw(10u32) == Some(GsColorFormat::RGBA32F),
        GsColorFormat::RG16F.spec_raw() == 11,
        GsColorFormat::spec_from_raw(11u32) == Some(GsColorFormat::RG16F),
        GsColorFormat::RG32F.spec_raw() == 12,
        GsColorFormat::spec_from_raw(12u32) == Some(GsColorFormat::RG32F),
        GsColorFormat::R16F.spec_raw() == 13,
        GsColorFormat::spec_from_raw(13u32) == Some(GsColorFormat::R16F),
        GsColorFormat::R32F.spec_raw() == 14,
        GsColorFormat::spec_from_raw(14u32) == Some(GsColorFormat::R32F),
        GsColorFormat::DXT1.spec_raw() == 15,
        GsColorFormat::spec_from_raw(15u32) == Some(GsColorFormat::DXT1),
        GsColorFormat::DXT3.spec_raw() == 16,
        GsColorFormat::spec_from_raw(16u32) == Some(GsColorFormat::DXT3),
        GsColorFormat::DXT5.spec_raw() == 17,
        GsColorFormat::spec_from_raw(17u32) == Some(GsColorFormat::DXT5),
        GsColorFormat::R8G8.spec_raw() == 18,
        GsColorFormat::spec_from_raw(18u32) == Some(GsColorFormat::R8G8),
        GsColorFormat::RGBAUnorm.spec_raw() == 19,
        GsColorFormat::spec_from_raw(19u32) == Some(GsColorFormat::RGBAUnorm),
        GsColorFormat::BGRXUnorm.spec_raw() == 20,
        GsColorFormat::spec_from_raw(20u32) == Some(GsColorFormat::BGRXUnorm),
        GsColorFormat::BGRAUnorm.spec_raw() == 21,
        GsColorFormat::spec_from_raw(21u32) == Some(GsColorFormat::BGRAUnorm),
        GsColorFormat::RG16.spec_raw() == 22,
        GsColorFormat::spec_from_raw(22u32) == Some(GsColorFormat::RG16),
{
}

/// The values of `GsZstencilFormat` are libobs's `gs_zstencil_format` constants,
/// variant by variant, in both directions.
pub proof fn lemma_gs_zstencil_format_libobs_values()
    ensures
        GsZstencilFormat::ZSNone.spec_raw() == 0,
        GsZstencilFormat::spec_from_raw(0u32) == Some(GsZstencilFormat::ZSNone),
        GsZstencilFormat::Z16.spec_raw() == 1,
        GsZstencilFormat::spec_from_raw(1u32) == Some(GsZstencilFormat::Z16),
        GsZstencilFormat::Z24s8.spec_raw() == 2,
        GsZstencilFormat::spec_from_raw(2u32) == Some(GsZstencilFormat::Z24s8),
        GsZstencilFormat::Z32F.spec_raw() == 3,
        GsZstencilFormat::spec_from_raw(3u32) == Some(GsZstencilFormat::Z32F),
        GsZstencilFormat::Z32s8X24.spec_raw() == 4,
        GsZstencilFormat::spec_from_raw(4u32) == Some(GsZstencilFormat::Z32s8X24),
{
}

/// Each variant of `GsColorFormat` is named by its own identifier.
pub proof fn lemma_gs_color_format_names()
    ensures
        GsColorFormat::Unknown.spec_name() == "Unknown"@,
        GsColorFormat::A8.spec_name() == "A8"@,
        GsColorFormat::R8.spec_name() == "R8"@,
        GsColorFormat::RGBA.spec_name() == "RGBA"@,
        GsColorFormat::BGRX.spec_name() == "BGRX"@,
        GsColorFormat::BGRA.spec_name() == "BGRA"@,
        GsColorFormat::R10G10B10A2.spec_name() == "R10G10B10A2"@,
        GsColorFormat::RGBA16.spec_name() == "RGBA16"@,
        GsColorFormat::R16.spec_name() == "R16"@,
        GsColorFormat::RGBA16F.spec_name() == "RGBA16F"@,
        GsColorFormat::RGBA32F.spec_name() == "RGBA32F"@,
        GsColorFormat::RG16F.spec_name() == "RG16F"@,
        GsColorFormat::RG32F.spec_name() == "RG32F"@,
        GsColorFormat::R16F.spec_name() == "R16F"@,
        GsColorFormat::R32F.spec_name() == "R32F"@,
        GsColorFormat::DXT1.spec_name() == "DXT1"@,
        GsColorFormat::DXT3.spec_name() == "DXT3"@,
        GsColorFormat::DXT5.spec_name() == "DXT5"@,
        GsColorFormat::R8G8.spec_name() == "R8G8"@,
        GsColorFormat::RGBAUnorm.spec_name() == "RGBAUnorm"@,
        GsColorFormat::BGRXUnorm.spec_name() == "BGRXUnorm"@,
        GsColorFormat::BGRAUnorm.spec_name() == "BGRAUnorm"@,
        GsColorFormat::RG16.spec_name() == "RG16"@,
{
}

/// Each variant of `GsZstencilFormat` is named by its own identifier.
pub proof fn lemma_gs_zstencil_format_names()
    ensures
        GsZstencilFormat::ZSNone.spec_name() == "ZSNone"@,
        GsZstencilFormat::Z16.spec_name() == "Z16"@,
        GsZstencilFormat::Z24s8.spec_name() == "Z24s8"@,
        GsZstencilFormat::Z32F.spec_name() == "Z32F"@,
        GsZstencilFormat::Z32s8X24.spec_name() == "Z32s8X24"@,
{
}

} // verus!
