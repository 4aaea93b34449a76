//! Compositing primitives and the widget contract of an on-screen overlay:
//! clipped rectangles, 4-bit-per-channel colours, a frame buffer that is only
//! ever written by alpha blending, and elements that draw and take input.

pub mod color;
pub mod element;
pub mod framebuffer;
pub mod geometry;
pub mod widgets;
