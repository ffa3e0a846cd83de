//! Where a display's window stands, whether it is drawn below other windows,
//! and whether it shows.
use vstd::prelude::*;

use crate::display::ObsDisplayCreationData;

verus! {

/// The placement of a display's window as the contracts see it.
pub struct PlacementView {
    /// Whether the display was created in a child window of its own.
    pub create_child: bool,
    /// Whether the window is drawn at the bottom of the Z order.
    pub render_at_bottom: bool,
    pub x: i32,
    pub y: i32,
    pub width: u32,
    pub height: u32,
    pub visible: bool,
}

/// The placement of a display's window. Only a display with a child window of
/// its own can be drawn at the bottom of the Z order.
#[derive(Clone, Copy, Debug)]
pub struct DisplayPlacement {
    create_child: bool,
    render_at_bottom: bool,
    x: i32,
    y: i32,
    width: u32,
    height: u32,
    visible: bool,
}

impl View for DisplayPlacement {
    type V = PlacementView;

    closed spec fn view(&self) -> PlacementView {
        PlacementView {
            create_child: self.create_child,
            render_at_bottom: self.render_at_bottom,
            x: self.x,
            y: self.y,
            width: self.width,
            height: self.height,
            visible: self.visible,
        }
    }
}

/// The placement of a new display: where its creation settings put it, shown,
/// and not at the bottom of the Z order.
pub open spec fn spec_initial_placement(data: ObsDisplayCreationData) -> PlacementView {
    PlacementView {
        create_child: data.create_child,
        render_at_bottom: false,
        x: data.x,
        y: data.y,
        width: data.width,
        height: data.height,
        visible: true,
    }
}

/// Asking for the bottom of the Z order: it takes effect only with a child
/// window; otherwise nothing changes.
pub open spec fn spec_set_render_at_bottom(p: PlacementView, render_at_bottom: bool) -> PlacementView {
    if p.create_child {
        PlacementView { render_at_bottom, ..p }
    } else {
        p
    }
}

/// Moving the window.
pub open spec fn spec_set_pos(p: PlacementView, x: i32, y: i32) -> PlacementView {
    PlacementView { x, y, ..p }
}

/// Resizing the window.
pub open spec fn spec_set_size(p: PlacementView, width: u32, height: u32) -> PlacementView {
    PlacementView { width, height, ..p }
}

/// Showing or hiding the window.
pub open spec fn spec_set_visible(p: PlacementView, visible: bool) -> PlacementView {
    PlacementView { visible, ..p }
}

impl DisplayPlacement {
    #[verifier::type_invariant]
    closed spec fn only_child_at_bottom(self) -> bool {
        self.render_at_bottom ==> self.create_child
    }

    /// The placement of a display created with `data`.
    pub fn new(data: &ObsDisplayCreationData) -> (r: Self)
        ensures
            r@ == spec_initial_placement(*data),
    {
        DisplayPlacement {
            create_child: data.create_child,
            render_at_bottom: false,
            x: data.x,
            y: data.y,
            width: data.width,
            height: data.height,
            visible: true,
        }
    }

    /// Whether the display has a child window of its own.
    pub fn create_child(&self) -> (r: bool)
        ensures
            r == self@.create_child,
    {
        self.create_child
    }

    /// Sets whether the window is drawn at the bottom of the Z order; without a
    /// child window this has no effect.
    pub fn set_render_at_bottom(&mut self, render_at_bottom: bool)
        ensures
            final(self)@ == spec_set_render_at_bottom(old(self)@, render_at_bottom),
    {
        if self.create_child {
            self.render_at_bottom = render_at_bottom;
        }
    }

    /// Whether the window is drawn at the bottom of the Z order; always
    /// `false` without a child window.
    pub fn render_at_bottom(&self) -> (r: bool)
        ensures
            r == self@.render_at_bottom,
            !self@.create_child ==> !r,
    {
        proof {
            use_type_invariant(self);
        }
        self.render_at_bottom
    }

    /// Moves the window.
    pub fn set_pos(&mut self, x: i32, y: i32)
        ensures
            final(self)@ == spec_set_pos(old(self)@, x, y),
    {
        proof {
            use_type_invariant(&*self);
        }
        self.x = x;
        self.y = y;
    }

    /// The position of the window.
    pub fn pos(&self) -> (r: (i32, i32))
        ensures
            r == (self@.x, self@.y),
    {
        (self.x, self.y)
    }

    /// Resizes the window.
    pub fn set_size(&mut self, width: u32, height: u32)
        ensures
            final(self)@ == spec_set_size(old(self)@, width, height),
    {
        proof {
            use_type_invariant(&*self);
        }
        self.width = width;
        self.height = height;
    }

    /// The size of the window.
    pub fn size(&self) -> (r: (u32, u32))
        ensures
            r == (self@.width, self@.height),
    {
        (self.width, self.height)
    }

    /// Shows the window.
    pub fn show(&mut self)
        ensures
            final(self)@ == spec_set_visible(old(self)@, true),
    {
        proof {
            use_type_invariant(&*self);
        }
        self.visible = true;
    }

    /// Hides the window.
    pub fn hide_window(&mut self)
        ensures
            final(self)@ == spec_set_visible(old(self)@, false),
    {
        proof {
            use_type_invariant(&*self);
        }
        self.visible = false;
    }

    /// Whether the window shows.
    pub fn is_visible(&self) -> (r: bool)
        ensures
            r == self@.visible,
    {
        self.visible
    }
}

/// Without a child window a display is never drawn at the bottom of the Z
/// order, whatever is asked for; with one, what was asked for is read back.
pub proof fn lemma_render_at_bottom_needs_child(p: PlacementView, render_at_bottom: bool)
    ensures
        !p.create_child ==> spec_set_render_at_bottom(p, render_at_bottom).render_at_bottom
            == p.render_at_bottom,
        p.create_child ==> spec_set_render_at_bottom(p, render_at_bottom).render_at_bottom
            == render_at_bottom,
{
}

/// A position or size that was set is read back, and setting one leaves the
/// other, the Z order and the visibility as they were.
pub proof fn lemma_pos_and_size_read_back(p: PlacementView, x: i32, y: i32, width: u32, height: u32)
    ensures
        (spec_set_pos(p, x, y).x, spec_set_pos(p, x, y).y) == (x, y),
        (spec_set_pos(p, x, y).width, spec_set_pos(p, x, y).height) == (p.width, p.height),
        spec_set_pos(p, x, y).visible == p.visible,
        spec_set_pos(p, x, y).render_at_bottom == p.render_at_bottom,
        (spec_set_size(p, width, height).width, spec_set_size(p, width, height).height) == (
            width,
            height,
        ),
        (spec_set_size(p, width, height).x, spec_set_size(p, width, height).y) == (p.x, p.y),
        spec_set_size(p, width, height).visible == p.visible,
        spec_set_size(p, width, height).render_at_bottom == p.render_at_bottom,
{
}

/// After showing, a window is visible; after hiding, it is not; either leaves
/// its position and size as they were.
pub proof fn lemma_visibility_after_show_hide(p: PlacementView)
    ensures
        spec_set_visible(p, true).visible,
        !spec_set_visible(p, false).visible,
        spec_set_visible(spec_set_visible(p, false), true) == spec_set_visible(p, true),
        (spec_set_visible(p, true).x, spec_set_visible(p, true).y) == (p.x, p.y),
        (spec_set_visible(p, false).width, spec_set_visible(p, false).height) == (p.width, p.height),
{
}

} // verus!
