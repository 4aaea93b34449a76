use overlay_toolkit::color::Color;
use overlay_toolkit::framebuffer::FrameBuffer;
use overlay_toolkit::geometry::Rect;

fn rect(left: usize, top: usize, width: usize, height: usize) -> Rect {
    Rect { left, top, width, height }
}

/// An 8 by 6 frame whose rows take 10 cells, every cell at zero.
fn blank(scissor: Vec<Rect>) -> FrameBuffer {
    FrameBuffer::new(8, 6, 20, vec![Color::new(); 60], scissor).unwrap()
}

fn alpha_at(fb: &FrameBuffer, x: usize, y: usize) -> u8 {
    fb.buffer[y * fb.stride_item_count() + x].a()
}

fn mark() -> Color {
    Color::from_values(0xF, 0xF, 0xF, 0x1)
}

#[test]
fn new_takes_a_buffer_that_holds_every_row() {
    assert!(FrameBuffer::new(8, 6, 20, vec![Color::new(); 60], Vec::new()).is_some());
    assert!(FrameBuffer::new(8, 6, 21, vec![Color::new(); 60], Vec::new()).is_some());
    assert!(FrameBuffer::new(8, 6, 16, vec![Color::new(); 48], Vec::new()).is_some());
    assert!(FrameBuffer::new(0, 0, 0, Vec::new(), Vec::new()).is_some());
    assert!(FrameBuffer::new(0, 9, 0, Vec::new(), Vec::new()).is_some());
}

#[test]
fn new_refuses_a_short_row_or_a_short_buffer() {
    assert!(FrameBuffer::new(8, 6, 15, vec![Color::new(); 60], Vec::new()).is_none());
    assert!(FrameBuffer::new(8, 6, 20, vec![Color::new(); 59], Vec::new()).is_none());
    assert!(FrameBuffer::new(1, 1, 0, vec![Color::new(); 4], Vec::new()).is_none());
}

#[test]
fn stride_is_counted_in_pixels() {
    let fb = blank(Vec::new());
    assert_eq!(fb.stride_item_count(), 10);
    let odd = FrameBuffer::new(8, 6, 21, vec![Color::new(); 60], Vec::new()).unwrap();
    assert_eq!(odd.stride_item_count(), 10);
}

#[test]
fn draw_rect_blends_the_pixels_of_the_rect_and_no_others() {
    let mut fb = blank(Vec::new());
    fb.draw_rect(rect(2, 1, 3, 2), mark());
    for y in 0..6 {
        for x in 0..10 {
            let inside = (2..5).contains(&x) && (1..3).contains(&y);
            let expected = if inside { 0x0001 } else { 0x0000 };
            assert_eq!(fb.buffer[y * 10 + x].into_bits(), expected);
        }
    }
}

#[test]
fn draw_rect_composites_onto_what_is_there() {
    let start = Color::from_values(0xF, 0x8, 0x1, 0xF);
    let mut fb = FrameBuffer::new(2, 2, 4, vec![start; 4], Vec::new()).unwrap();
    fb.draw_rect(rect(0, 0, 1, 1), Color::from_values(0x0, 0x0, 0xF, 0x3));
    assert_eq!(fb.buffer[0], Color::from_values(0xE, 0x7, 0x1, 0xF));
    assert_eq!(fb.buffer[1], start);
    assert_eq!(fb.buffer[2], start);
    assert_eq!(fb.buffer[3], start);
}

#[test]
fn draw_rect_is_clipped_by_the_last_scissor() {
    let mut fb = blank(vec![rect(0, 0, 8, 6), rect(3, 2, 2, 2)]);
    fb.draw_rect(rect(0, 0, 8, 6), mark());
    for y in 0..6 {
        for x in 0..10 {
            let inside = (3..5).contains(&x) && (2..4).contains(&y);
            assert_eq!(alpha_at(&fb, x, y), if inside { 1 } else { 0 });
        }
    }
}

#[test]
fn draw_rect_stays_in_the_visible_area() {
    let mut fb = blank(Vec::new());
    fb.draw_rect(rect(6, 4, 100, 100), mark());
    for y in 0..6 {
        for x in 0..10 {
            let inside = (6..8).contains(&x) && (4..6).contains(&y);
            assert_eq!(alpha_at(&fb, x, y), if inside { 1 } else { 0 });
        }
    }
}

#[test]
fn draw_rect_that_is_clipped_away_writes_nothing() {
    let mut fb = blank(vec![rect(0, 0, 2, 2)]);
    let before = fb.buffer.clone();
    fb.draw_rect(rect(4, 4, 3, 3), mark());
    assert_eq!(fb.buffer, before);
    fb.draw_rect(rect(1, 1, 0, 5), mark());
    assert_eq!(fb.buffer, before);
    fb.draw_rect(rect(20, 20, 5, 5), mark());
    assert_eq!(fb.buffer, before);
}

#[test]
fn clear_blends_the_background_onto_every_visible_pixel() {
    let mut fb = blank(Vec::new());
    fb.clear();
    for y in 0..6 {
        for x in 0..10 {
            assert_eq!(alpha_at(&fb, x, y), if x < 8 { 0xD } else { 0 });
        }
    }
    fb.clear();
    assert_eq!(alpha_at(&fb, 0, 0), 0xF);
    assert_eq!(fb.buffer[0], Color::from_values(0x0, 0x0, 0x0, 0xF));
}

#[test]
fn line_offset_is_half_the_width_and_at_least_one() {
    assert_eq!(FrameBuffer::line_offset(0), 1);
    assert_eq!(FrameBuffer::line_offset(1), 1);
    assert_eq!(FrameBuffer::line_offset(2), 1);
    assert_eq!(FrameBuffer::line_offset(4), 2);
    assert_eq!(FrameBuffer::line_offset(7), 3);
    assert_eq!(FrameBuffer::line_offset(usize::MAX), usize::MAX / 2);
}

#[test]
fn draw_box_draws_four_bands_outside_the_rect() {
    let mut fb = FrameBuffer::new(8, 8, 20, vec![Color::new(); 80], Vec::new()).unwrap();
    fb.draw_box(rect(2, 2, 4, 4), 2, mark());
    let expected: [[u8; 8]; 8] = [
        [0, 0, 0, 0, 0, 0, 0, 0],
        [0, 2, 1, 1, 1, 1, 2, 0],
        [0, 1, 0, 0, 0, 0, 1, 0],
        [0, 1, 0, 0, 0, 0, 1, 0],
        [0, 1, 0, 0, 0, 0, 1, 0],
        [0, 1, 0, 0, 0, 0, 1, 0],
        [0, 2, 1, 1, 1, 1, 2, 0],
        [0, 0, 0, 0, 0, 0, 0, 0],
    ];
    for y in 0..8 {
        for x in 0..8 {
            assert_eq!(alpha_at(&fb, x, y), expected[y][x]);
        }
        assert_eq!(alpha_at(&fb, 8, y), 0);
        assert_eq!(alpha_at(&fb, 9, y), 0);
    }
}

#[test]
fn draw_box_of_a_wide_line() {
    let mut fb = FrameBuffer::new(10, 10, 20, vec![Color::new(); 100], Vec::new()).unwrap();
    fb.draw_box(rect(3, 3, 4, 4), 4, mark());
    let corner: [u8; 10] = [0, 2, 2, 1, 1, 1, 1, 2, 2, 0];
    let side: [u8; 10] = [0, 1, 1, 0, 0, 0, 0, 1, 1, 0];
    let none: [u8; 10] = [0; 10];
    let expected = [none, corner, corner, side, side, side, side, corner, corner, none];
    for y in 0..10 {
        for x in 0..10 {
            assert_eq!(alpha_at(&fb, x, y), expected[y][x]);
        }
    }
}

#[test]
fn draw_box_leaves_the_rect_as_it_was() {
    let mut fb = FrameBuffer::new(10, 10, 20, vec![Color::new(); 100], Vec::new()).unwrap();
    for line_width in 0..7 {
        fb.draw_box(rect(3, 3, 4, 4), line_width, mark());
    }
    for y in 3..7 {
        for x in 3..7 {
            assert_eq!(fb.buffer[y * 10 + x].into_bits(), 0);
        }
    }
    assert_eq!(alpha_at(&fb, 2, 2), 14);
}

#[test]
fn draw_box_at_the_origin_is_held_at_zero() {
    let mut fb = FrameBuffer::new(4, 4, 8, vec![Color::new(); 16], Vec::new()).unwrap();
    fb.draw_box(rect(0, 0, 2, 2), 0, mark());
    let expected: [[u8; 4]; 4] = [[2, 1, 2, 1], [1, 0, 1, 0], [2, 1, 2, 1], [1, 0, 1, 0]];
    for y in 0..4 {
        for x in 0..4 {
            assert_eq!(alpha_at(&fb, x, y), expected[y][x]);
        }
    }
}
