//! Two elements: a rectangle of one colour, and a track bar whose value the
//! direction keys move.

use vstd::prelude::*;
use crate::color::Color;
use crate::element::AnalogStickState;
use crate::element::Element;
use crate::element::FocusDirection;
use crate::element::TouchState;
use crate::framebuffer::FrameBuffer;
use crate::geometry::Rect;

verus! {

/// The directional pad's left button.
pub const KEY_LEFT: u64 = 0x0000_1000;

/// The directional pad's right button.
pub const KEY_RIGHT: u64 = 0x0000_4000;

/// The left stick, pushed left.
pub const KEY_STICK_L_LEFT: u64 = 0x0001_0000;

/// The left stick, pushed right.
pub const KEY_STICK_L_RIGHT: u64 = 0x0004_0000;

/// The right stick, pushed left.
pub const KEY_STICK_R_LEFT: u64 = 0x0010_0000;

/// The right stick, pushed right.
pub const KEY_STICK_R_RIGHT: u64 = 0x0040_0000;

/// Every key that means "left".
pub const ANY_LEFT: u64 = KEY_LEFT | KEY_STICK_L_LEFT | KEY_STICK_R_LEFT;

/// Every key that means "right".
pub const ANY_RIGHT: u64 = KEY_RIGHT | KEY_STICK_L_RIGHT | KEY_STICK_R_RIGHT;

/// The largest value of a track bar.
pub const TRACK_BAR_MAX: u8 = 100;

/// Whether one of the keys of `mask` is among `held_keys`.
pub open spec fn holds_any(held_keys: u64, mask: u64) -> bool {
    held_keys & mask != 0
}

/// What a frame does to a track bar at `value`: the value after it, and
/// whether the input was consumed. With both directions held, or neither,
/// nothing moves and the input is consumed; one direction moves the value by
/// one, left up and right down, unless the value is at that end already, and
/// then the input is not consumed.
pub open spec fn track_bar_step(value: u8, left: bool, right: bool) -> (u8, bool) {
    if left == right {
        (value, true)
    } else if left && value < TRACK_BAR_MAX {
        ((value + 1) as u8, true)
    } else if right && value > 0 {
        ((value - 1) as u8, true)
    } else {
        (value, false)
    }
}

/// A rectangle of one colour, for looking at layouts.
pub struct DebugRectangle {
    pub bounds: Rect,
    pub parent: Option<usize>,
    pub color: Color,
}

impl DebugRectangle {
    pub fn new(color: Color, bounds: Rect) -> (r: DebugRectangle)
        ensures
            r.bounds == bounds,
            r.color == color,
            r.parent.is_none(),
    {
        DebugRectangle { bounds, parent: None, color }
    }
}

impl Element for DebugRectangle {
    open spec fn wf(&self) -> bool {
        true
    }

    open spec fn spec_bounds_rect(&self) -> Rect {
        self.bounds
    }

    open spec fn spec_parent(&self) -> Option<usize> {
        self.parent
    }

    fn get_parent(&self) -> (parent: Option<usize>) {
        self.parent
    }

    fn set_parent(&mut self, parent: usize)
        ensures
            final(self).bounds == old(self).bounds,
            final(self).color == old(self).color,
            final(self).parent == Some(parent),
    {
        self.parent = Some(parent);
    }

    fn bounds_rect(&self) -> (r: Rect) {
        self.bounds
    }

    /// Composites the rectangle's colour onto its bounds.
    fn draw(&mut self, framebuffer: &mut FrameBuffer)
        ensures
            *final(self) == *old(self),
            final(framebuffer).buffer@ == old(framebuffer).drawn(
                old(framebuffer).buffer@,
                old(self).bounds,
                old(self).color,
            ),
    {
        framebuffer.draw_rect(self.bounds, self.color);
    }
}

/// A slider with a value from 0 to 100, which tells `value_changed_callback`
/// of every change.
pub struct TrackBar<F: Fn(u8)> {
    pub bounds: Rect,
    pub parent: Option<usize>,
    pub color: Color,
    pub value: u8,
    pub icon: char,
    pub value_changed_callback: Option<F>,
    pub touch_locked: bool,
}

impl<F: Fn(u8)> TrackBar<F> {
    /// A track bar at `value`, or at zero where none is given.
    pub fn new(
        bounds: Rect,
        color: Color,
        value: Option<u8>,
        icon: char,
        value_changed_callback: Option<F>,
        touch_locked: bool,
    ) -> (r: TrackBar<F>)
        ensures
            r.bounds == bounds,
            r.parent.is_none(),
            r.color == color,
            r.value == (match value {
                Some(v) => v,
                None => 0,
            }),
            r.icon == icon,
            r.value_changed_callback == value_changed_callback,
            r.touch_locked == touch_locked,
            (value_changed_callback matches Some(callback) ==> forall|v: u8|
                call_requires(callback, (v,))) ==> r.wf(),
    {
        let start: u8 = match value {
            Some(v) => v,
            None => 0,
        };
        TrackBar {
            bounds,
            parent: None,
            color,
            value: start,
            icon,
            value_changed_callback,
            touch_locked,
        }
    }

    /// Everything but the value is as in `other`.
    pub open spec fn same_but_value(&self, other: &TrackBar<F>) -> bool {
        &&& self.bounds == other.bounds
        &&& self.parent == other.parent
        &&& self.color == other.color
        &&& self.icon == other.icon
        &&& self.value_changed_callback == other.value_changed_callback
        &&& self.touch_locked == other.touch_locked
    }

    /// The callback was called with `value`, if there is one.
    pub open spec fn told(&self, value: u8) -> bool {
        self.value_changed_callback matches Some(callback) ==> call_ensures(
            callback,
            (value,),
            (),
        )
    }

    fn tell(&self)
        requires
            self.wf(),
        ensures
            self.told(self.value),
    {
        if let Some(callback) = &self.value_changed_callback {
            callback(self.value);
        }
    }
}

impl<F: Fn(u8)> Element for TrackBar<F> {
    /// The callback, if there is one, can be called with every value.
    open spec fn wf(&self) -> bool {
        self.value_changed_callback matches Some(callback) ==> forall|v: u8|
            call_requires(callback, (v,))
    }

    open spec fn spec_bounds_rect(&self) -> Rect {
        self.bounds
    }

    open spec fn spec_parent(&self) -> Option<usize> {
        self.parent
    }

    /// A track bar always takes the focus.
    fn request_focus(&mut self, direction: FocusDirection) -> (accepted: bool)
        ensures
            accepted,
            *final(self) == *old(self),
    {
        true
    }

    fn get_parent(&self) -> (parent: Option<usize>) {
        self.parent
    }

    /// A track bar paints nothing of its own.
    fn draw(&mut self, framebuffer: &mut FrameBuffer)
        ensures
            *final(self) == *old(self),
            final(framebuffer).buffer@ == old(framebuffer).buffer@,
    {
    }

    fn set_parent(&mut self, parent: usize)
        ensures
            final(self).value == old(self).value,
            final(self).bounds == old(self).bounds,
            final(self).color == old(self).color,
            final(self).icon == old(self).icon,
            final(self).value_changed_callback == old(self).value_changed_callback,
            final(self).touch_locked == old(self).touch_locked,
    {
        self.parent = Some(parent);
    }

    fn bounds_rect(&self) -> (r: Rect) {
        self.bounds
    }

    /// Moves the value by the direction keys that are held, and tells the
    /// callback of the new value where it changed.
    fn on_controller_input(
        &mut self,
        new_keys: u64,
        held_keys: u64,
        touch_state: Option<&TouchState>,
        joy_stick_pos_left: &AnalogStickState,
        joy_stick_pos_right: &AnalogStickState,
    ) -> (consumed: bool)
        ensures
            (final(self).value, consumed) == track_bar_step(
                old(self).value,
                holds_any(held_keys, ANY_LEFT),
                holds_any(held_keys, ANY_RIGHT),
            ),
            final(self).same_but_value(old(self)),
            final(self).value != old(self).value ==> final(self).told(final(self).value),
            old(self).value <= TRACK_BAR_MAX ==> final(self).value <= TRACK_BAR_MAX,
    {
        let left: bool = held_keys & ANY_LEFT != 0;
        let right: bool = held_keys & ANY_RIGHT != 0;
        if left == right {
            true
        } else if left && self.value < TRACK_BAR_MAX {
            self.value += 1;
            self.tell();
            true
        } else if right && self.value > 0 {
            self.value -= 1;
            self.tell();
            true
        } else {
            false
        }
    }
}

} // verus!
