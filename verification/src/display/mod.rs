//! Creation settings and helpers for OBS displays.
pub mod enums;
pub mod placement;
pub use enums::{GsColorFormat, GsZstencilFormat};

use std::marker::PhantomPinned;
use vstd::prelude::*;

use crate::utils::error::ObsError;

verus! {

/// The marker that keeps a value from being moved once it is pinned.
#[verifier::external_type_specification]
#[verifier::external_body]
pub struct ExPhantomPinned(PhantomPinned);

/// A position that a draw callback reads through a pointer; it must stay where it is.
pub struct LockedPosition {
    pub x: i32,
    pub y: i32,
    /// This must not be moved in memory as the draw callback is a raw pointer to this struct
    _fixed_in_heap: PhantomPinned,
}

/// The settings with which a display is created, apart from the window it is
/// shown in.
#[derive(Clone, Copy, Debug, PartialEq, Eq, Structural)]
pub struct ObsDisplayCreationData {
    pub create_child: bool,
    pub x: i32,
    pub y: i32,
    pub width: u32,
    pub height: u32,
    pub format: GsColorFormat,
    pub zsformat: GsZstencilFormat,
    pub adapter: u32,
    pub backbuffers: u32,
    pub background_color: u32,
}

/// The values of `gs_init_data` that libobs takes to create a display, apart
/// from the window.
#[derive(Clone, Copy, Debug, PartialEq, Eq, Structural)]
pub struct GsInitValues {
    pub cx: u32,
    pub cy: u32,
    pub format: u32,
    pub zsformat: u32,
    pub adapter: u32,
    pub num_backbuffers: u32,
}

impl ObsDisplayCreationData {
    /// Settings for a display at the given position and size: in a child
    /// window, BGRA without depth buffer, adapter 0, no extra back buffers, a
    /// black background.
    pub fn new(x: i32, y: i32, width: u32, height: u32) -> (r: Self)
        ensures
            r == (ObsDisplayCreationData {
                create_child: true,
                x,
                y,
                width,
                height,
                format: GsColorFormat::BGRA,
                zsformat: GsZstencilFormat::ZSNone,
                adapter: 0,
                backbuffers: 0,
                background_color: 0,
            }),
    {
        ObsDisplayCreationData {
            create_child: true,
            format: GsColorFormat::BGRA,
            zsformat: GsZstencilFormat::ZSNone,
            x,
            y,
            width,
            height,
            adapter: 0,
            backbuffers: 0,
            background_color: 0,
        }
    }

    pub fn set_format(self, format: GsColorFormat) -> (r: Self)
        ensures
            r == (ObsDisplayCreationData { format, ..self }),
    {
        let mut s = self;
        s.format = format;
        s
    }

    pub fn set_zsformat(self, zsformat: GsZstencilFormat) -> (r: Self)
        ensures
            r == (ObsDisplayCreationData { zsformat, ..self }),
    {
        let mut s = self;
        s.zsformat = zsformat;
        s
    }

    pub fn set_adapter(self, adapter: u32) -> (r: Self)
        ensures
            r == (ObsDisplayCreationData { adapter, ..self }),
    {
        let mut s = self;
        s.adapter = adapter;
        s
    }

    pub fn set_backbuffers(self, backbuffers: u32) -> (r: Self)
        ensures
            r == (ObsDisplayCreationData { backbuffers, ..self }),
    {
        let mut s = self;
        s.backbuffers = backbuffers;
        s
    }

    pub fn set_background_color(self, background_color: u32) -> (r: Self)
        ensures
            r == (ObsDisplayCreationData { background_color, ..self }),
    {
        let mut s = self;
        s.background_color = background_color;
        s
    }

    /// If enabled, creating the display will result in a child window being
    /// created inside the provided window handle. The display is attached to
    /// that child window. This is on by default. Only applicable on Windows.
    pub fn set_create_child(self, should_create: bool) -> (r: Self)
        ensures
            r == (ObsDisplayCreationData { create_child: should_create, ..self }),
    {
        let mut s = self;
        s.create_child = should_create;
        s
    }

    /// The values that libobs takes to create the display.
    pub fn init_values(&self) -> (r: GsInitValues)
        ensures
            r == (GsInitValues {
                cx: self.width,
                cy: self.height,
                format: self.format.spec_raw(),
                zsformat: self.zsformat.spec_raw(),
                adapter: self.adapter,
                num_backbuffers: self.backbuffers,
            }),
    {
        GsInitValues {
            cx: self.width,
            cy: self.height,
            format: self.format.to_raw(),
            zsformat: self.zsformat.to_raw(),
            adapter: self.adapter,
            num_backbuffers: self.backbuffers,
        }
    }
}

/// Where a new display is drawn in its window: at the origin of the child
/// window when one is created (on Windows), otherwise at the requested position.
pub fn initial_display_position(create_child: bool, is_windows: bool, x: i32, y: i32) -> (r: (
    i32,
    i32,
))
    ensures
        r == (if create_child && is_windows {
            (0i32, 0i32)
        } else {
            (x, y)
        }),
{
    if create_child && is_windows {
        (0, 0)
    } else {
        (x, y)
    }
}

/// The background color for red, green and blue components: `0xRRGGBB`.
pub open spec fn spec_rgb_color(r: u8, g: u8, b: u8) -> u32 {
    ((r as u32) * 65536 + (g as u32) * 256 + (b as u32)) as u32
}

/// Packs red, green and blue into the color value that libobs takes, as
/// `(r << 16) | (g << 8) | b`.
pub fn rgb_color(r: u8, g: u8, b: u8) -> (c: u32)
    ensures
        c == spec_rgb_color(r, g, b),
{
    let c: u32 = ((r as u32) << 16u32) | ((g as u32) << 8u32) | (b as u32);
    assert(((r as u32) << 16u32) | ((g as u32) << 8u32) | (b as u32) == ((r as u32) * 65536 + (
    g as u32) * 256 + (b as u32)) as u32) by (bit_vector);
    c
}

/// The components of a packed color can be read back.
pub proof fn lemma_rgb_color_components(r: u8, g: u8, b: u8)
    ensures
        (spec_rgb_color(r, g, b) >> 16u32) & 0xffu32 == r as u32,
        (spec_rgb_color(r, g, b) >> 8u32) & 0xffu32 == g as u32,
        spec_rgb_color(r, g, b) & 0xffu32 == b as u32,
        spec_rgb_color(r, g, b) < 0x100_0000,
{
    assert((((r as u32) * 65536 + (g as u32) * 256 + (b as u32)) as u32 >> 16u32) & 0xffu32
        == r as u32) by (bit_vector);
    assert((((r as u32) * 65536 + (g as u32) * 256 + (b as u32)) as u32 >> 8u32) & 0xffu32
        == g as u32) by (bit_vector);
    assert((((r as u32) * 65536 + (g as u32) * 256 + (b as u32)) as u32) & 0xffu32 == b as u32)
        by (bit_vector);
    assert((((r as u32) * 65536 + (g as u32) * 256 + (b as u32)) as u32) < 0x100_0000u32)
        by (bit_vector);
}

/// Operations every display offers: its color space, whether it draws, and its
/// background.
pub trait MiscDisplayTrait {
    fn is_enabled(&self) -> Result<bool, ObsError>;

    fn set_enabled(&self, enabled: bool) -> Result<(), ObsError>;

    fn set_background_color(&self, r: u8, g: u8, b: u8) -> Result<(), ObsError>;
}

/// Placement of a display's window.
pub trait WindowPositionTrait {
    /// If create_child is true, sets whether the window is rendered at the
    /// bottom of the Z order. Otherwise, this function has no effect.
    fn set_render_at_bottom(&self, render_at_bottom: bool) -> Result<(), ObsError>;

    /// Returns true if the window is rendered at the bottom of the Z order.
    /// If create_child was false during creation, this function always returns false.
    fn get_render_at_bottom(&self) -> Result<bool, ObsError>;

    fn set_pos(&self, x: i32, y: i32) -> Result<(), ObsError>;

    fn set_size(&self, width: u32, height: u32) -> Result<(), ObsError>;

    fn get_pos(&self) -> Result<(i32, i32), ObsError>;

    fn get_size(&self) -> Result<(u32, u32), ObsError>;
}

/// Showing and hiding a display.
pub trait ShowHideTrait {
    /// Shows the window.
    fn show(&mut self) -> Result<(), ObsError>;

    /// Hides the window.
    fn hide_window(&mut self) -> Result<(), ObsError>;

    /// Returns true if the window is visible.
    fn is_visible(&self) -> Result<bool, ObsError>;
}

} // verus!
