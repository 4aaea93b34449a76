//! What every widget of the overlay is: something with a place on the screen
//! that draws itself, may take the focus, and is offered the input of each
//! frame.

use vstd::prelude::*;
use crate::color::Color;
use crate::color::BACKGROUND_BITS;
use crate::color::HIGHLIGHT_BITS;
use crate::framebuffer::FrameBuffer;
use crate::framebuffer::minus;
use crate::framebuffer::plus;
use crate::geometry::Rect;

verus! {

/// The height of the highlight band, and how far it reaches past each side.
pub const HIGHLIGHT_MARGIN: usize = 4;

/// The direction in which the focus moved before it landed on an element.
#[derive(Debug, Clone, Copy, PartialEq, Eq, Structural)]
pub enum FocusDirection {
    /// The focus was placed by the program, without input from the user.
    Programmatic,
    /// The focus moved upwards.
    Up,
    /// The focus moved downwards.
    Down,
    /// The focus moved from left to right.
    Left,
    /// The focus moved from right to left.
    Right,
}

/// The kind of input in use.
#[derive(Debug, Clone, Copy, PartialEq, Eq, Structural)]
pub enum InputMode {
    /// Input from the controller.
    Controller,
    /// Touch input.
    Touch,
    /// Touch input that moves or scrolls.
    TouchScroll,
}

/// One key of an activation combination: its button mask, name and glyph.
#[derive(Debug, Clone, Copy)]
pub struct KeyInfo {
    pub key: u64,
    pub name: &'static str,
    pub glyph: char,
}

/// One finger on the touch screen.
#[derive(Debug, Clone, Copy, PartialEq, Eq, Structural)]
pub struct TouchState {
    pub finger_id: u32,
    pub x: u32,
    pub y: u32,
    pub diameter_x: u32,
    pub diameter_y: u32,
    pub rotation_angle: u32,
}

/// The position of an analog stick.
#[derive(Debug, Clone, Copy, PartialEq, Eq, Structural)]
pub struct AnalogStickState {
    pub x: i32,
    pub y: i32,
}

/// The accent band of an element at `bounds`: four pixels high, above the top
/// edge, and four pixels past each side.
pub open spec fn highlight_band(bounds: Rect) -> Rect {
    Rect {
        left: minus(bounds.left, HIGHLIGHT_MARGIN),
        top: minus(bounds.top, HIGHLIGHT_MARGIN),
        width: plus(bounds.width, plus(HIGHLIGHT_MARGIN, HIGHLIGHT_MARGIN)),
        height: HIGHLIGHT_MARGIN,
    }
}

/// `color`, or `fallback` where none is given.
pub open spec fn color_or(color: Option<Color>, fallback: Color) -> Color {
    match color {
        Some(c) => c,
        None => fallback,
    }
}

/// A widget. Whatever an element does, it keeps itself and the frame buffer
/// well-formed and leaves the frame's geometry and clip regions as they were.
/// What the provided methods do beyond that is stated with each of them, and
/// holds of every element that does not replace them.
pub trait Element: Sized {
    /// What the element needs to hold of itself.
    spec fn wf(&self) -> bool;

    /// The element's place in frame-buffer coordinates.
    spec fn spec_bounds_rect(&self) -> Rect;

    /// The identifier of the element's parent, if it has one.
    spec fn spec_parent(&self) -> Option<usize>;

    /// Asks the element to take the focus, which arrives from `direction`;
    /// the answer is whether it takes it. An element declines unless it says
    /// otherwise.
    fn request_focus(&mut self, direction: FocusDirection) -> (accepted: bool)
        requires
            old(self).wf(),
        ensures
            final(self).wf(),
        default_ensures
            !accepted,
            *final(self) == *old(self),
    {
        false
    }

    /// Offers a click to the element; the answer is whether it consumed it.
    fn on_click(&mut self, keys: u64) -> (consumed: bool)
        requires
            old(self).wf(),
        ensures
            final(self).wf(),
        default_ensures
            !consumed,
            *final(self) == *old(self),
    {
        false
    }

    /// Offers a touch to the element; the answer is whether it consumed it.
    fn on_touch(
        &mut self,
        touch_state: &TouchState,
        previous_touch_state: Option<&TouchState>,
    ) -> (consumed: bool)
        requires
            old(self).wf(),
        ensures
            final(self).wf(),
        default_ensures
            !consumed,
            *final(self) == *old(self),
    {
        false
    }

    /// Offers the controller's state to the element, once every frame,
    /// whether or not anything changed: `new_keys` are the buttons pressed
    /// since the frame before, `held_keys` those that are down. The answer is
    /// whether the element consumed the input.
    fn on_controller_input(
        &mut self,
        new_keys: u64,
        held_keys: u64,
        touch_state: Option<&TouchState>,
        joy_stick_pos_left: &AnalogStickState,
        joy_stick_pos_right: &AnalogStickState,
    ) -> (consumed: bool)
        requires
            old(self).wf(),
        ensures
            final(self).wf(),
        default_ensures
            !consumed,
            *final(self) == *old(self),
    {
        false
    }

    /// Paints the element.
    fn draw(&mut self, framebuffer: &mut FrameBuffer)
        requires
            old(self).wf(),
            old(framebuffer).wf(),
        ensures
            final(self).wf(),
            final(framebuffer).wf(),
            final(framebuffer).same_frame(old(framebuffer)),
    ;

    /// The element's place in frame-buffer coordinates.
    fn bounds_rect(&self) -> (r: Rect)
        ensures
            r == self.spec_bounds_rect(),
    ;

    /// Paints the element's background: `color`, or the default background,
    /// composited onto the whole of its bounds.
    fn draw_background(&self, framebuffer: &mut FrameBuffer, color: Option<Color>)
        requires
            old(framebuffer).wf(),
        ensures
            final(framebuffer).wf(),
            final(framebuffer).same_frame(old(framebuffer)),
        default_ensures
            final(framebuffer).buffer@ == old(framebuffer).drawn(
                old(framebuffer).buffer@,
                self.spec_bounds_rect(),
                color_or(color, Color { bits: BACKGROUND_BITS }),
            ),
    {
        let fill = match color {
            Some(c) => c,
            None => Color::background(),
        };
        framebuffer.draw_rect(self.bounds_rect(), fill);
    }

    /// Paints the focus highlight: `color`, or the default highlight,
    /// composited onto the accent band above the element.
    fn draw_highlight(&self, framebuffer: &mut FrameBuffer, color: Option<Color>)
        requires
            old(framebuffer).wf(),
        ensures
            final(framebuffer).wf(),
            final(framebuffer).same_frame(old(framebuffer)),
        default_ensures
            final(framebuffer).buffer@ == old(framebuffer).drawn(
                old(framebuffer).buffer@,
                highlight_band(self.spec_bounds_rect()),
                color_or(color, Color { bits: HIGHLIGHT_BITS }),
            ),
    {
        let bounds = self.bounds_rect();
        let accent = match color {
            Some(c) => c,
            None => Color::highlight(),
        };
        framebuffer.draw_rect(
            Rect {
                left: bounds.left.saturating_sub(HIGHLIGHT_MARGIN),
                top: bounds.top.saturating_sub(HIGHLIGHT_MARGIN),
                width: bounds.width.saturating_add(
                    HIGHLIGHT_MARGIN.saturating_add(HIGHLIGHT_MARGIN),
                ),
                height: HIGHLIGHT_MARGIN,
            },
            accent,
        );
    }

    /// Starts the shake that shows that the focus cannot move on in
    /// `direction`. Nothing happens unless the element says otherwise.
    fn trigger_highlight_shake(&mut self, direction: FocusDirection)
        requires
            old(self).wf(),
        ensures
            final(self).wf(),
        default_ensures
            *final(self) == *old(self),
    {
    }

    /// Starts the click animation. Nothing happens unless the element says
    /// otherwise.
    fn trigger_click_animation(&mut self, input: InputMode)
        requires
            old(self).wf(),
        ensures
            final(self).wf(),
        default_ensures
            *final(self) == *old(self),
    {
    }

    /// Ends the click animation. Nothing happens unless the element says
    /// otherwise.
    fn reset_click_animation(&mut self)
        requires
            old(self).wf(),
        ensures
            final(self).wf(),
        default_ensures
            *final(self) == *old(self),
    {
    }

    /// Moves the click animation on by a frame. Nothing happens unless the
    /// element says otherwise.
    fn draw_click_animation(&mut self)
        requires
            old(self).wf(),
        ensures
            final(self).wf(),
        default_ensures
            *final(self) == *old(self),
    {
    }

    /// Whether the pixel `(x, y)` lies in the element's bounds.
    fn in_bounds(&self, x: usize, y: usize) -> (r: bool)
        ensures
            r == self.spec_bounds_rect().spec_contains(x as int, y as int),
    {
        self.bounds_rect().contains(x, y)
    }

    /// Makes the element with the identifier `parent` this element's parent.
    fn set_parent(&mut self, parent: usize)
        requires
            old(self).wf(),
        ensures
            final(self).wf(),
            final(self).spec_parent() == Some(parent),
    ;

    /// The identifier of the element's parent, if it has one.
    fn get_parent(&self) -> (parent: Option<usize>)
        ensures
            parent == self.spec_parent(),
    ;
}

} // verus!
